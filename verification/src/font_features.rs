use vstd::prelude::*;

use crate::text::same_text;

verus! {

/// A font feature as seen in contracts: its tag and its value.
pub type FeatureEntry = (Seq<char>, u32);

/// The tag of the contextual-alternates feature, which turns ligatures on and off.
pub open spec fn calt_tag() -> Seq<char> {
    "calt"@
}

/// OpenType font features as (tag, value) pairs, in order.
#[derive(Debug)]
pub struct FontFeatures {
    pub features: Vec<(String, u32)>,
}

/// The views of a list of features.
pub open spec fn feature_views(v: Seq<(String, u32)>) -> Seq<FeatureEntry> {
    v.map_values(|p: (String, u32)| (p.0@, p.1))
}

impl View for FontFeatures {
    type V = Seq<FeatureEntry>;

    open spec fn view(&self) -> Seq<FeatureEntry> {
        feature_views(self.features@)
    }
}

/// Whether some feature is tagged `calt`.
pub open spec fn has_calt(s: Seq<FeatureEntry>) -> bool {
    exists|i: int| 0 <= i < s.len() && (#[trigger] s[i]).0 == calt_tag()
}

/// Whether `i` is the position of the first feature tagged `calt`.
pub open spec fn is_first_calt(s: Seq<FeatureEntry>, i: int) -> bool {
    &&& 0 <= i < s.len()
    &&& s[i].0 == calt_tag()
    &&& forall|k: int| 0 <= k < i ==> (#[trigger] s[k]).0 != calt_tag()
}

/// The position of the first feature tagged `calt` (meaningful when there is one).
pub open spec fn first_calt(s: Seq<FeatureEntry>) -> int {
    choose|i: int| is_first_calt(s, i)
}

/// The value that stands for a switched feature: 1 when on, 0 when off.
pub open spec fn switch_value(enabled: bool) -> u32 {
    if enabled {
        1
    } else {
        0
    }
}

/// Whether contextual alternates are on: `None` without a `calt` feature,
/// else whether the first `calt` feature has the value 1.
pub open spec fn calt_enabled(s: Seq<FeatureEntry>) -> Option<bool> {
    if has_calt(s) {
        Some(s[first_calt(s)].1 == 1)
    } else {
        None
    }
}

/// The features with contextual alternates switched: the first `calt`
/// feature gets the new value, or a `calt` feature is added at the end.
pub open spec fn with_calt(s: Seq<FeatureEntry>, enabled: bool) -> Seq<FeatureEntry> {
    if has_calt(s) {
        s.update(first_calt(s), (calt_tag(), switch_value(enabled)))
    } else {
        s.push((calt_tag(), switch_value(enabled)))
    }
}

/// The features other than `calt`, in order.
pub open spec fn without_calt(s: Seq<FeatureEntry>) -> Seq<FeatureEntry>
    decreases s.len(),
{
    if s.len() == 0 {
        Seq::empty()
    } else {
        let rest = without_calt(s.drop_last());
        if s.last().0 == calt_tag() {
            rest
        } else {
            rest.push(s.last())
        }
    }
}

proof fn lemma_first_calt_unique(s: Seq<FeatureEntry>, i: int)
    requires
        is_first_calt(s, i),
    ensures
        has_calt(s),
        first_calt(s) == i,
{
    assert(s[i].0 == calt_tag());
    let j = first_calt(s);
    assert(is_first_calt(s, j));
    if j < i {
        assert(s[j].0 != calt_tag());
    } else if i < j {
        assert(s[i].0 != calt_tag());
    }
}

proof fn lemma_has_calt_first(s: Seq<FeatureEntry>)
    requires
        has_calt(s),
    ensures
        is_first_calt(s, first_calt(s)),
{
    let i = choose|i: int| 0 <= i < s.len() && (#[trigger] s[i]).0 == calt_tag();
    lemma_exists_first(s, i);
}

proof fn lemma_exists_first(s: Seq<FeatureEntry>, i: int)
    requires
        0 <= i < s.len(),
        s[i].0 == calt_tag(),
    ensures
        exists|j: int| is_first_calt(s, j),
    decreases i,
{
    if forall|k: int| 0 <= k < i ==> (#[trigger] s[k]).0 != calt_tag() {
        assert(is_first_calt(s, i));
    } else {
        let k = choose|k: int| 0 <= k < i && (#[trigger] s[k]).0 == calt_tag();
        lemma_exists_first(s, k);
    }
}

impl FontFeatures {
    /// The features as (tag, value) pairs.
    pub fn tag_value_list(&self) -> (r: &Vec<(String, u32)>)
        ensures
            feature_views(r@) == self@,
    {
        &self.features
    }

    /// Whether contextual alternates (ligatures) are on; `None` when no
    /// `calt` feature is set.
    pub fn is_calt_enabled(&self) -> (r: Option<bool>)
        ensures
            r == calt_enabled(self@),
    {
        match first_calt_position(&self.features) {
            Some(i) => Some(self.features[i].1 == 1),
            None => None,
        }
    }
}

fn first_calt_position(v: &Vec<(String, u32)>) -> (r: Option<usize>)
    ensures
        match r {
            Some(i) => is_first_calt(feature_views(v@), i as int) && first_calt(feature_views(v@))
                == i && has_calt(feature_views(v@)),
            None => !has_calt(feature_views(v@)),
        },
{
    let ghost s = feature_views(v@);
    let n = v.len();
    let mut i: usize = 0;
    while i < n
        invariant
            n == v@.len(),
            s == feature_views(v@),
            0 <= i <= n,
            forall|k: int| 0 <= k < i ==> (#[trigger] s[k]).0 != calt_tag(),
        decreases n - i,
    {
        if same_text(v[i].0.as_str(), "calt") {
            proof {
                assert(s[i as int].0 == calt_tag());
                lemma_first_calt_unique(s, i as int);
            }
            return Some(i);
        }
        i = i + 1;
    }
    None
}

pub(crate) fn copy_features(v: &Vec<(String, u32)>) -> (r: Vec<(String, u32)>)
    ensures
        feature_views(r@) == feature_views(v@),
{
    let mut r: Vec<(String, u32)> = Vec::new();
    let n = v.len();
    let mut i: usize = 0;
    while i < n
        invariant
            n == v@.len(),
            0 <= i <= n,
            feature_views(r@) =~= feature_views(v@.subrange(0, i as int)),
        decreases n - i,
    {
        let ghost before = r@;
        let tag = v[i].0.clone();
        r.push((tag, v[i].1));
        proof {
            assert(feature_views(r@) =~= feature_views(before).push((v@[i as int].0@, v@[i as int].1)));
            assert(feature_views(v@.subrange(0, i + 1)) =~= feature_views(v@.subrange(0, i as int)).push(
                (v@[i as int].0@, v@[i as int].1),
            ));
        }
        i = i + 1;
    }
    proof {
        assert(v@.subrange(0, n as int) =~= v@);
    }
    r
}

/// The features with contextual alternates (ligatures) switched on or off:
/// the first `calt` feature gets the new value, or one is added at the end.
pub fn set_calt_font_feature(font_features: &FontFeatures, enabled: bool) -> (r: FontFeatures)
    ensures
        r@ == with_calt(font_features@, enabled),
{
    let mut features = copy_features(&font_features.features);
    let value: u32 = if enabled {
        1
    } else {
        0
    };
    match first_calt_position(&features) {
        Some(i) => {
            let ghost before = features@;
            features.set(i, (String::from_str("calt"), value));
            proof {
                assert(feature_views(features@) =~= feature_views(before).update(
                    i as int,
                    (calt_tag(), switch_value(enabled)),
                ));
            }
        },
        None => {
            let ghost before = features@;
            features.push((String::from_str("calt"), value));
            proof {
                assert(feature_views(features@) =~= feature_views(before).push(
                    (calt_tag(), switch_value(enabled)),
                ));
            }
        },
    }
    FontFeatures { features }
}

/// The features other than `calt`, in order.
pub fn font_features_without_calt(font_features: &FontFeatures) -> (r: FontFeatures)
    ensures
        r@ == without_calt(font_features@),
{
    let v = &font_features.features;
    let ghost s = font_features@;
    let mut out: Vec<(String, u32)> = Vec::new();
    let n = v.len();
    let mut i: usize = 0;
    while i < n
        invariant
            n == v@.len(),
            s == feature_views(v@),
            0 <= i <= n,
            feature_views(out@) == without_calt(s.subrange(0, i as int)),
        decreases n - i,
    {
        proof {
            assert(s.subrange(0, i + 1).drop_last() =~= s.subrange(0, i as int));
            assert(s.subrange(0, i + 1).last() == s[i as int]);
        }
        if !same_text(v[i].0.as_str(), "calt") {
            let ghost before = out@;
            let tag = v[i].0.clone();
            out.push((tag, v[i].1));
            proof {
                assert(feature_views(out@) =~= feature_views(before).push(s[i as int]));
            }
        }
        i = i + 1;
    }
    proof {
        assert(s.subrange(0, n as int) =~= s);
    }
    FontFeatures { features: out }
}

/// After switching contextual alternates, they are reported as switched that way.
pub proof fn lemma_with_calt_enabled(s: Seq<FeatureEntry>, enabled: bool)
    ensures
        calt_enabled(with_calt(s, enabled)) == Some(enabled),
{
    let t = with_calt(s, enabled);
    if has_calt(s) {
        lemma_has_calt_first(s);
        let i = first_calt(s);
        assert(is_first_calt(t, i));
        lemma_first_calt_unique(t, i);
    } else {
        let i = s.len() as int;
        assert forall|k: int| 0 <= k < i implies (#[trigger] t[k]).0 != calt_tag() by {
            assert(t[k] == s[k]);
            if s[k].0 == calt_tag() {
                assert(has_calt(s));
            }
        }
        assert(is_first_calt(t, i));
        lemma_first_calt_unique(t, i);
    }
}

/// Switching contextual alternates twice has the effect of the second switch alone.
pub proof fn lemma_with_calt_last_wins(s: Seq<FeatureEntry>, first: bool, second: bool)
    ensures
        with_calt(with_calt(s, first), second) == with_calt(s, second),
{
    let t = with_calt(s, first);
    if has_calt(s) {
        lemma_has_calt_first(s);
        let i = first_calt(s);
        assert(is_first_calt(t, i));
        lemma_first_calt_unique(t, i);
        assert(with_calt(t, second) =~= with_calt(s, second));
    } else {
        let i = s.len() as int;
        assert forall|k: int| 0 <= k < i implies (#[trigger] t[k]).0 != calt_tag() by {
            assert(t[k] == s[k]);
            if s[k].0 == calt_tag() {
                assert(has_calt(s));
            }
        }
        assert(is_first_calt(t, i));
        lemma_first_calt_unique(t, i);
        assert(with_calt(t, second) =~= with_calt(s, second));
    }
}

proof fn lemma_without_calt_update(s: Seq<FeatureEntry>, i: int, v: u32)
    requires
        0 <= i < s.len(),
        s[i].0 == calt_tag(),
    ensures
        without_calt(s.update(i, (calt_tag(), v))) == without_calt(s),
    decreases s.len(),
{
    let t = s.update(i, (calt_tag(), v));
    if i == s.len() - 1 {
        assert(t.drop_last() =~= s.drop_last());
    } else {
        assert(t.drop_last() =~= s.drop_last().update(i, (calt_tag(), v)));
        lemma_without_calt_update(s.drop_last(), i, v);
    }
}

/// Switching contextual alternates does not touch the other features.
pub proof fn lemma_without_calt_ignores_switch(s: Seq<FeatureEntry>, enabled: bool)
    ensures
        without_calt(with_calt(s, enabled)) == without_calt(s),
{
    if has_calt(s) {
        lemma_has_calt_first(s);
        lemma_without_calt_update(s, first_calt(s), switch_value(enabled));
    } else {
        let t = s.push((calt_tag(), switch_value(enabled)));
        assert(t.drop_last() =~= s);
    }
}

/// What is left without `calt` has no `calt` feature.
pub proof fn lemma_without_calt_has_none(s: Seq<FeatureEntry>)
    ensures
        !has_calt(without_calt(s)),
        forall|i: int|
            0 <= i < without_calt(s).len() ==> (#[trigger] without_calt(s)[i]).0 != calt_tag(),
    decreases s.len(),
{
    if s.len() > 0 {
        lemma_without_calt_has_none(s.drop_last());
    }
}

/// Removing `calt` twice is the same as removing it once.
pub proof fn lemma_without_calt_idempotent(s: Seq<FeatureEntry>)
    ensures
        without_calt(without_calt(s)) == without_calt(s),
{
    lemma_without_calt_has_none(s);
    lemma_without_calt_keeps_free(without_calt(s));
}

proof fn lemma_without_calt_keeps_free(s: Seq<FeatureEntry>)
    requires
        forall|i: int| 0 <= i < s.len() ==> (#[trigger] s[i]).0 != calt_tag(),
    ensures
        without_calt(s) == s,
    decreases s.len(),
{
    if s.len() > 0 {
        lemma_without_calt_keeps_free(s.drop_last());
        assert(s.last().0 != calt_tag());
        assert(s.drop_last().push(s.last()) =~= s);
    }
}

/// Switching `calt` touches one feature at most: with a `calt` feature, only
/// the first one changes, to `calt` with the new value, and the list keeps
/// its length; without one, the list grows by `calt` at the end and nothing
/// else changes.
pub proof fn lemma_with_calt_touches_one(s: Seq<FeatureEntry>, enabled: bool)
    ensures
        has_calt(s) ==> with_calt(s, enabled).len() == s.len(),
        has_calt(s) ==> forall|i: int|
            0 <= i < s.len() && i != first_calt(s) ==> #[trigger] with_calt(s, enabled)[i] == s[i],
        has_calt(s) ==> s[first_calt(s)].0 == calt_tag() && forall|k: int|
            0 <= k < first_calt(s) ==> (#[trigger] s[k]).0 != calt_tag(),
        !has_calt(s) ==> with_calt(s, enabled) == s.push((calt_tag(), switch_value(enabled))),
        with_calt(s, enabled).contains((calt_tag(), switch_value(enabled))),
        switch_value(enabled) == 1 <==> enabled,
{
    if has_calt(s) {
        lemma_has_calt_first(s);
        assert(with_calt(s, enabled)[first_calt(s)] == (calt_tag(), switch_value(enabled)));
    } else {
        assert(with_calt(s, enabled)[s.len() as int] == (calt_tag(), switch_value(enabled)));
    }
}

/// Removing `calt` keeps exactly the other features: everything left is a
/// feature of the list that is not `calt`, and every feature that is not
/// `calt` is left.
pub proof fn lemma_without_calt_keeps_others(s: Seq<FeatureEntry>)
    ensures
        forall|e: FeatureEntry| #[trigger] without_calt(s).contains(e) <==> (s.contains(e) && e.0 != calt_tag()),
        without_calt(s).len() <= s.len(),
    decreases s.len(),
{
    if s.len() > 0 {
        let p = s.drop_last();
        lemma_without_calt_keeps_others(p);
        assert forall|e: FeatureEntry| #[trigger] without_calt(s).contains(e) <==> (s.contains(e)
            && e.0 != calt_tag()) by {
            if s.contains(e) && e.0 != calt_tag() {
                let i = choose|i: int| 0 <= i < s.len() && s[i] == e;
                if i < s.len() - 1 {
                    assert(p[i] == e);
                    assert(p.contains(e));
                    let w = without_calt(p);
                    assert(w.contains(e));
                    let k = choose|k: int| 0 <= k < w.len() && w[k] == e;
                    if s.last().0 != calt_tag() {
                        assert(w.push(s.last())[k] == e);
                    }
                } else {
                    assert(without_calt(s).last() == e);
                }
            }
            if without_calt(s).contains(e) {
                let w = without_calt(p);
                let k = choose|k: int| 0 <= k < without_calt(s).len() && without_calt(s)[k] == e;
                if k < w.len() {
                    assert(w[k] == e);
                    assert(w.contains(e));
                    assert(p.contains(e));
                    let i = choose|i: int| 0 <= i < p.len() && p[i] == e;
                    assert(s[i] == e);
                } else {
                    assert(e == s.last());
                    assert(s[s.len() - 1] == e);
                }
            }
        }
    }
}

} // verus!
