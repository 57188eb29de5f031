use vstd::prelude::*;

verus! {

/// The text that `health_check` answers with.
pub const HEALTH_OK: &'static str = "ok";

/// Capability token: access to the file system.
pub const FILESYSTEM: &'static str = "filesystem";

/// Capability token: native notifications.
pub const NOTIFICATIONS: &'static str = "notifications";

/// Capability token: the system clipboard.
pub const CLIPBOARD: &'static str = "clipboard";

/// Capability token: opening the application from a link.
pub const DEEP_LINKING: &'static str = "deep-linking";

/// Capability token: self-update of the application.
pub const AUTOUPDATE: &'static str = "autoupdate";

/// Capability token: control over the native window.
pub const WINDOW_CONTROLS: &'static str = "window-controls";

/// Model of the answer of `health_check`.
pub open spec fn health_reply() -> Seq<char> {
    HEALTH_OK@
}

/// The capability set, in the order in which the shell declares it.
pub open spec fn capability_set() -> Seq<Seq<char>> {
    seq![FILESYSTEM@, NOTIFICATIONS@, CLIPBOARD@, DEEP_LINKING@, AUTOUPDATE@, WINDOW_CONTROLS@]
}

/// The text of each token of a list of capability tokens.
pub open spec fn token_texts(v: Seq<&'static str>) -> Seq<Seq<char>> {
    v.map_values(|t: &'static str| t@)
}

/// The answer of `health_check` is the two characters `o`, `k`.
pub proof fn lemma_health_reply_is_ok()
    ensures
        health_reply() == seq!['o', 'k'],
{
    reveal_strlit("ok");
    assert(health_reply() =~= seq!['o', 'k']);
}

/// Reports that the shell is alive; always answers `"ok"`.
pub fn health_check() -> (r: String)
    ensures
        r@ == health_reply(),
{
    HEALTH_OK.to_owned()
}

/// Lists the features that the shell declares to its front-end, built
/// afresh on every call.
pub fn desktop_capabilities() -> (r: Vec<&'static str>)
    ensures
        token_texts(r@) == capability_set(),
{
    let r = vec![FILESYSTEM, NOTIFICATIONS, CLIPBOARD, DEEP_LINKING, AUTOUPDATE, WINDOW_CONTROLS];
    assert(token_texts(r@) =~= capability_set());
    r
}

} // verus!
