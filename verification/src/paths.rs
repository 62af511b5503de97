use vstd::prelude::*;

verus! {

/// The path `name` joined onto `base` as `Path::join` does on the target
/// platform (its separator, and a `name` that is absolute replacing `base`).
pub uninterp spec fn path_joined(base: Seq<char>, name: Seq<char>) -> Seq<char>;

/// `Path::join`: joins `name` onto `base` with the platform's separator
/// (`/` on Unix, `\` on Windows), adding one only when `base` is not empty
/// and does not already end with one, and taking `name` alone when it is
/// absolute. The contract names the result `path_joined` of the two paths;
/// as both are UTF-8, so is the result, and the conversion back to a string
/// loses nothing.
#[verifier::external_body]
fn path_join(base: &str, name: &str) -> (p: String)
    ensures
        p@ == path_joined(base@, name@),
{
    std::path::Path::new(base).join(name).to_string_lossy().into_owned()
}

/// The directory of the settings: `app_data` under the working directory
/// `current_dir`.
pub fn settings_dir_path(current_dir: &str) -> (p: String)
    ensures
        p@ == path_joined(current_dir@, "app_data"@),
{
    path_join(current_dir, "app_data")
}

/// The settings file: `settings.json` in the settings directory `settings_dir`.
pub fn settings_json_path(settings_dir: &str) -> (p: String)
    ensures
        p@ == path_joined(settings_dir@, "settings.json"@),
{
    path_join(settings_dir, "settings.json")
}

/// Holds the settings path override that was in force before one was set,
/// so that it can be put back.
pub struct SettingsJsonPathOverrideGuard {
    prev: Option<String>,
}

impl SettingsJsonPathOverrideGuard {
    /// The override to put back.
    pub closed spec fn previous(self) -> Option<String> {
        self.prev
    }

    /// Puts back the override that was in force when the guard was made.
    pub fn restore(self, slot: &mut Option<String>)
        ensures
            *final(slot) == self.previous(),
    {
        *slot = self.prev;
    }
}

/// Makes `path` the settings path override held in `slot`, and returns a
/// guard that puts the previous override back.
pub fn override_settings_json_path(slot: &mut Option<String>, path: String) -> (guard:
    SettingsJsonPathOverrideGuard)
    ensures
        *final(slot) == Some(path),
        guard.previous() == *old(slot),
{
    let prev = slot.take();
    *slot = Some(path);
    SettingsJsonPathOverrideGuard { prev }
}

} // verus!
