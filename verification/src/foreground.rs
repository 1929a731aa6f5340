//! The application that holds keyboard focus, and how text reaches it.
//!
//! Some applications drop injected character events.  For those the
//! replacement text travels over the clipboard and is pasted into the control
//! that really holds the focus, which may be a child of the foreground window.
use vstd::prelude::*;
use vstd::slice::slice_subrange;
use vstd::string::StringExecFns;

verus! {

/// How the replacement characters are delivered.
#[derive(Clone, Copy, Debug, PartialEq, Eq, Structural)]
pub enum OutputStrategy {
    /// One character event per character.
    Standard,
    /// Clipboard, then a paste chord.
    ClipboardPaste,
}

/// What is known of the window in the foreground.  A window handle of zero
/// stands for no window.
#[derive(Clone, Debug, PartialEq, Eq)]
pub struct ForegroundTarget {
    /// The foreground window.
    pub window: isize,
    /// Executable name of the process that owns the foreground window.
    pub process_name: Option<String>,
    /// The control to paste into, where the workaround applies.
    pub paste_target: Option<isize>,
}

/// The lower-case form of a text, as the standard library computes it.
pub uninterp spec fn lowercase_of(text: Seq<char>) -> Seq<char>;

/// The text that a sequence of UTF-16 code units decodes to, with the
/// replacement character in place of each unpaired surrogate.
pub uninterp spec fn utf16_lossy(units: Seq<u16>) -> Seq<char>;

/// `str::to_lowercase` of the standard library: the result is the Unicode
/// lower-case form of `text`, a function of the text alone.
#[verifier::external_body]
fn to_lowercase(text: &str) -> (lowered: String)
    ensures
        lowered@ == lowercase_of(text@),
{
    text.to_lowercase()
}

/// `String::from_utf16_lossy` of the standard library: the result is the
/// lossy decoding of `units`, a function of the code units alone.
#[verifier::external_body]
fn from_utf16_lossy(units: &[u16]) -> (text: String)
    ensures
        text@ == utf16_lossy(units@),
{
    String::from_utf16_lossy(units)
}

/// Whether a lower-case executable name stands on the list of applications
/// that need the paste workaround.
pub open spec fn listed(lowered: Seq<char>) -> bool {
    lowered == "warp.exe"@
}

/// Whether the process named `name` needs the paste workaround.  Names are
/// compared without regard to case.
pub open spec fn denylisted(name: Option<String>) -> bool {
    name is Some && listed(lowercase_of(name->0@))
}

/// The control that a paste goes to.  There is none for a process that needs
/// no workaround, and none where no foreground window is known.  Otherwise
/// it is the focused control of the window's thread where one is known, and
/// the foreground window itself where none is.
pub open spec fn paste_target_of(denied: bool, window: isize, focus: isize) -> Option<isize> {
    if !denied || window == 0 {
        None
    } else if focus != 0 {
        Some(focus)
    } else {
        Some(window)
    }
}

/// Looks a lower-case executable name up in the list of applications that
/// need the paste workaround.
pub fn denylist_has(lowered: &String) -> (found: bool)
    ensures
        found == listed(lowered@),
{
    let entry: String = String::from_str("warp.exe");
    *lowered == entry
}

/// Whether the process named `name` needs the paste workaround.  Only then is
/// the focused control worth asking for.
pub fn is_denylisted(name: &Option<String>) -> (denied: bool)
    ensures
        denied == denylisted(*name),
{
    match name {
        Some(n) => {
            let lowered: String = to_lowercase(n.as_str());
            denylist_has(&lowered)
        },
        None => false,
    }
}

/// Chooses the control that a paste goes to.
pub fn pick_paste_target(denied: bool, window: isize, focus: isize) -> (target: Option<isize>)
    ensures
        target == paste_target_of(denied, window, focus),
{
    if !denied || window == 0 {
        None
    } else if focus != 0 {
        Some(focus)
    } else {
        Some(window)
    }
}

/// Reads the executable name out of the buffer that the process query
/// filled with `len` code units; a query that wrote nothing gives no name.
pub fn process_name_from_buffer(buffer: &[u16], len: u32) -> (name: Option<String>)
    requires
        len <= buffer@.len(),
    ensures
        len == 0 ==> name is None,
        len > 0 ==> name is Some && name->0@ == utf16_lossy(buffer@.take(len as int)),
{
    if len > 0 {
        let written: &[u16] = slice_subrange(buffer, 0, len as usize);
        assert(written@ =~= buffer@.take(len as int));
        Some(from_utf16_lossy(written))
    } else {
        None
    }
}

/// A target without a foreground window, without a process name or of a
/// process off the list is typed to in the standard way.
pub proof fn failed_steps_fall_back(name: Option<String>, window: isize, focus: isize)
    ensures
        window == 0 || name is None || !denylisted(name) ==> paste_target_of(
            denylisted(name),
            window,
            focus,
        ) is None,
        denylisted(name) && window != 0 ==> paste_target_of(denylisted(name), window, focus)
            == Some(if focus != 0 { focus } else { window }),
{
}

impl ForegroundTarget {
    /// The strategy that the target calls for.
    pub open spec fn strategy_of(self) -> OutputStrategy {
        if self.paste_target is Some {
            OutputStrategy::ClipboardPaste
        } else {
            OutputStrategy::Standard
        }
    }

    /// The target that needs no workaround: what every failed query falls
    /// back to.
    pub fn standard() -> (target: Self)
        ensures
            target.window == 0,
            target.process_name is None,
            target.paste_target is None,
    {
        ForegroundTarget { window: 0, process_name: None, paste_target: None }
    }

    /// Puts together what the queries returned: the foreground window, the
    /// name of the process that owns it, and the focused control of its
    /// thread, each zero or `None` where its query failed or was not made.
    /// Whenever a step failed the target is one of the standard strategy.
    pub fn resolve(process_name: Option<String>, window: isize, focus: isize) -> (target: Self)
        ensures
            target.process_name == process_name,
            target.window == window,
            target.paste_target == paste_target_of(denylisted(process_name), window, focus),
    {
        let denied: bool = is_denylisted(&process_name);
        let paste_target: Option<isize> = pick_paste_target(denied, window, focus);
        ForegroundTarget { window, process_name, paste_target }
    }

    /// The strategy that the target calls for: the clipboard exactly where a
    /// paste target is known.
    pub fn strategy(&self) -> (strategy: OutputStrategy)
        ensures
            strategy == self.strategy_of(),
    {
        match self.paste_target {
            Some(_) => OutputStrategy::ClipboardPaste,
            None => OutputStrategy::Standard,
        }
    }
}

} // verus!
