//! The single global capture shortcut, and how it is swapped for another.
use vstd::prelude::*;

verus! {

pub const DEFAULT_CAPTURE_SHORTCUT: &'static str = "CommandOrControl+Shift+X";

pub const CAPTURE_SHORTCUT_EVENT: &'static str = "focusgo://capture-shortcut";

/// The shortcut that is current for the capture action.
pub struct CaptureShortcutState {
    shortcut: String,
}

impl View for CaptureShortcutState {
    type V = Seq<char>;

    closed spec fn view(&self) -> Seq<char> {
        self.shortcut@
    }
}

impl CaptureShortcutState {
    pub fn new(default_shortcut: &str) -> (r: CaptureShortcutState)
        ensures
            r@ == default_shortcut@,
    {
        CaptureShortcutState { shortcut: default_shortcut.to_owned() }
    }

    pub fn get(&self) -> (r: String)
        ensures
            r@ == self@,
    {
        self.shortcut.clone()
    }

    pub fn set(&mut self, shortcut: String)
        ensures
            final(self)@ == shortcut@,
    {
        self.shortcut = shortcut;
    }
}

/// What is sent to the interface when the capture shortcut fires.
pub struct ShortcutTriggeredPayload {
    pub shortcut: String,
}

/// The payload for a key event on the capture shortcut: one on key-down,
/// none on key-up.
pub fn shortcut_event_payload(pressed: bool, shortcut: String) -> (r: Option<
    ShortcutTriggeredPayload,
>)
    ensures
        r is Some <==> pressed,
        r matches Some(p) ==> p.shortcut@ == shortcut@,
{
    if pressed {
        Some(ShortcutTriggeredPayload { shortcut })
    } else {
        None
    }
}

/// Registers and unregisters global shortcuts with the operating system.
///
/// An implementation may describe itself through the spec functions below by
/// overriding `modeled` to return true; the methods' contracts then bind it.
/// The defaults describe nothing: with `modeled` false the contracts promise
/// nothing of the calls, which suits implementations written outside
/// verified code (they cannot define spec functions).
pub trait ShortcutRegistrar {
    /// Whether the spec functions below describe this registrar.
    open spec fn modeled(&self) -> bool {
        false
    }

    /// The shortcuts registered at present.
    open spec fn registered(&self) -> Set<Seq<char>> {
        Set::empty()
    }

    /// Whether the system lets go of `shortcut` when asked to unregister it.
    open spec fn releases(&self, shortcut: Seq<char>) -> bool {
        false
    }

    /// Whether the system takes `shortcut` when asked to register it.
    open spec fn accepts(&self, shortcut: Seq<char>) -> bool {
        false
    }

    /// The message with which the system refuses to register `shortcut`, if
    /// it refuses it.
    open spec fn refusal(&self, shortcut: Seq<char>) -> Option<Seq<char>> {
        None
    }

    fn is_registered(&self, shortcut: &str) -> (r: bool)
        ensures
            self.modeled() ==> r == self.registered().contains(shortcut@),
    ;

    /// Registers `shortcut` with the capture handler. A refusal leaves the
    /// registrations as they were.
    fn register_with_handler(&mut self, shortcut: &str) -> (r: Result<(), String>)
        ensures
            final(self).modeled() == old(self).modeled(),
            old(self).modeled() ==> {
                &&& r is Ok ==> final(self).registered() == old(self).registered().insert(
                    shortcut@,
                )
                &&& r is Err ==> final(self).registered() == old(self).registered()
                &&& old(self).accepts(shortcut@) ==> r is Ok
                &&& old(self).refusal(shortcut@) is Some ==> r is Err && r->Err_0@ == old(
                    self,
                ).refusal(shortcut@)->Some_0
                &&& forall|t: Seq<char>| #[trigger]
                    final(self).releases(t) == old(self).releases(t)
                &&& forall|t: Seq<char>| #[trigger] final(self).accepts(t) == old(self).accepts(t)
                &&& forall|t: Seq<char>| #[trigger] final(self).refusal(t) == old(self).refusal(t)
            },
    ;

    /// Unregisters `shortcut`. A refusal leaves the registrations as they were.
    fn unregister(&mut self, shortcut: &str) -> (r: Result<(), String>)
        ensures
            final(self).modeled() == old(self).modeled(),
            old(self).modeled() ==> {
                &&& old(self).releases(shortcut@) ==> r is Ok
                &&& r is Ok ==> final(self).registered() == old(self).registered().remove(
                    shortcut@,
                )
                &&& r is Err ==> final(self).registered() == old(self).registered()
                &&& forall|t: Seq<char>| #[trigger]
                    final(self).releases(t) == old(self).releases(t)
                &&& forall|t: Seq<char>| #[trigger] final(self).accepts(t) == old(self).accepts(t)
                &&& forall|t: Seq<char>| #[trigger] final(self).refusal(t) == old(self).refusal(t)
            },
    ;
}

/// Whether `c` has the Unicode White_Space property.
pub open spec fn is_white_space(c: char) -> bool {
    let u = c as u32;
    ||| 0x9 <= u <= 0xd
    ||| u == 0x20
    ||| u == 0x85
    ||| u == 0xa0
    ||| u == 0x1680
    ||| 0x2000 <= u <= 0x200a
    ||| u == 0x2028
    ||| u == 0x2029
    ||| u == 0x202f
    ||| u == 0x205f
    ||| u == 0x3000
}

/// `s` without its leading white space.
pub open spec fn trim_start(s: Seq<char>) -> Seq<char>
    decreases s.len(),
{
    if s.len() > 0 && is_white_space(s[0]) {
        trim_start(s.drop_first())
    } else {
        s
    }
}

/// `s` without its trailing white space.
pub open spec fn trim_end(s: Seq<char>) -> Seq<char>
    decreases s.len(),
{
    if s.len() > 0 && is_white_space(s.last()) {
        trim_end(s.drop_last())
    } else {
        s
    }
}

/// The text left when leading and trailing white space is removed.
pub open spec fn trimmed(s: Seq<char>) -> Seq<char> {
    trim_end(trim_start(s))
}

/// Whether the text parses as a keyboard accelerator such as
/// "CommandOrControl+Shift+X".
pub uninterp spec fn is_accelerator(s: Seq<char>) -> bool;

/// Relies on `str::trim`: the text without leading and trailing characters
/// of the Unicode White_Space property.
#[verifier::external_body]
fn trim_text<'a>(s: &'a str) -> (r: &'a str)
    ensures
        r@ == trimmed(s@),
{
    s.trim()
}

/// Relies on `HotKey::from_str` of global-hotkey (the `Shortcut` type of
/// tauri's global shortcut plugin): whether the text is a valid accelerator,
/// which depends on the text alone. On failure, the parse error's text.
#[verifier::external_body]
fn parse_accelerator(s: &str) -> (r: Result<(), String>)
    ensures
        r is Ok <==> is_accelerator(s@),
{
    s.parse::<global_hotkey::hotkey::HotKey>().map(|_| ()).map_err(|error| error.to_string())
}

pub open spec fn empty_shortcut_message() -> Seq<char> {
    "Shortcut cannot be empty"@
}

pub open spec fn invalid_shortcut_prefix() -> Seq<char> {
    "Invalid shortcut format: "@
}

/// The requested shortcut with surrounding white space removed; fails when
/// nothing is left or when it is not a valid accelerator.
pub fn normalize_shortcut(input: &str) -> (r: Result<String, String>)
    ensures
        trimmed(input@).len() == 0 ==> r is Err && r->Err_0@ == empty_shortcut_message(),
        trimmed(input@).len() > 0 && !is_accelerator(trimmed(input@)) ==> r is Err
            && invalid_shortcut_prefix().is_prefix_of(r->Err_0@),
        trimmed(input@).len() > 0 && is_accelerator(trimmed(input@)) ==> r is Ok && r->Ok_0@
            == trimmed(input@),
{
    let normalized = trim_text(input);
    if normalized.unicode_len() == 0 {
        return Err(String::from_str("Shortcut cannot be empty"));
    }
    match parse_accelerator(normalized) {
        Ok(()) => Ok(normalized.to_owned()),
        Err(error) => {
            let mut message = String::from_str("Invalid shortcut format: ");
            message.append(error.as_str());
            Err(message)
        },
    }
}

/// Whether `requested` is a shortcut that an update may switch to.
pub open spec fn acceptable(requested: Seq<char>) -> bool {
    trimmed(requested).len() > 0 && is_accelerator(trimmed(requested))
}

/// The view of a result whose value and error are both text.
pub open spec fn text_view(r: Result<String, String>) -> Result<Seq<char>, Seq<char>> {
    match r {
        Ok(v) => Ok(v@),
        Err(e) => Err(e@),
    }
}

/// What switching from `current` to the request `requested` yields, with
/// the registrar going from `before` to `after` and the call returning `r`.
///
/// A blank or unparseable request fails before any registrar call. Asking
/// again for the current shortcut while it is registered changes nothing.
/// Otherwise the new shortcut is registered first: where the system takes it
/// the switch succeeds, where it refuses it its message is returned as it came
/// and the registrations stay as they were. After a successful registration
/// the previous shortcut is unregistered, if it differs; where the system
/// does not let go of it, the switch still succeeds.
pub open spec fn shortcut_switch<R: ShortcutRegistrar>(
    before: R,
    after: R,
    current: Seq<char>,
    requested: Seq<char>,
    r: Result<Seq<char>, Seq<char>>,
) -> bool {
    let n = trimmed(requested);
    let kept = current == n && before.registered().contains(n);
    &&& n.len() == 0 ==> r == Err::<Seq<char>, Seq<char>>(empty_shortcut_message())
    &&& n.len() > 0 && !is_accelerator(n) ==> r is Err && invalid_shortcut_prefix().is_prefix_of(
        r->Err_0,
    )
    &&& r is Ok ==> acceptable(requested) && r->Ok_0 == n
    &&& before.modeled() ==> {
        &&& r is Err ==> after.registered() == before.registered()
        &&& acceptable(requested) && kept ==> r == Ok::<Seq<char>, Seq<char>>(n)
            && after.registered() == before.registered()
        &&& acceptable(requested) && !kept && before.accepts(n) ==> r == Ok::<
            Seq<char>,
            Seq<char>,
        >(n)
        &&& acceptable(requested) && !kept && before.refusal(n) is Some ==> r == Err::<
            Seq<char>,
            Seq<char>,
        >(before.refusal(n)->Some_0)
        &&& r is Ok ==> {
            &&& after.registered().contains(n)
            &&& before.registered().remove(current).insert(n).subset_of(after.registered())
            &&& after.registered().subset_of(before.registered().insert(n))
        }
        &&& r is Ok && n != current && before.releases(current) ==> after.registered()
            == before.registered().insert(n).remove(current)
    }
}

/// Makes the shortcut requested in `next_shortcut` the registered one, in
/// place of `current_shortcut`, and returns it with white space trimmed, as
/// `shortcut_switch` describes. A request that is blank or does not parse
/// leaves the registrar untouched.
pub fn update_registered_shortcut<R: ShortcutRegistrar>(
    registrar: &mut R,
    current_shortcut: &str,
    next_shortcut: &str,
) -> (r: Result<String, String>)
    ensures
        shortcut_switch(
            *old(registrar),
            *final(registrar),
            current_shortcut@,
            next_shortcut@,
            text_view(r),
        ),
        !acceptable(next_shortcut@) ==> *final(registrar) == *old(registrar),
{
    let normalized = normalize_shortcut(next_shortcut)?;
    let same = current_shortcut.to_owned() == normalized;
    if same && registrar.is_registered(normalized.as_str()) {
        proof {
            if old(registrar).modeled() {
                assert(old(registrar).registered().remove(current_shortcut@).insert(normalized@)
                    =~= old(registrar).registered());
            }
        }
        return Ok(normalized);
    }
    registrar.register_with_handler(normalized.as_str())?;
    if !same && registrar.is_registered(current_shortcut) {
        // Best-effort cleanup: a refusal to drop the previous shortcut must
        // not undo the registration that just succeeded.
        let _ = registrar.unregister(current_shortcut);
    }
    proof {
        if old(registrar).modeled() {
            assert(old(registrar).registered().remove(current_shortcut@).insert(
                normalized@,
            ).subset_of(registrar.registered()));
            assert(normalized@ != current_shortcut@ && old(registrar).releases(current_shortcut@)
                ==> registrar.registered() =~= old(registrar).registered().insert(
                normalized@,
            ).remove(current_shortcut@));
        }
    }
    Ok(normalized)
}

/// Switches the capture shortcut to `shortcut` as `update_registered_shortcut`
/// does, and makes the result current in `state`. On failure the state is
/// left as it was.
pub fn register_capture_shortcut<R: ShortcutRegistrar>(
    state: &mut CaptureShortcutState,
    registrar: &mut R,
    shortcut: &str,
) -> (r: Result<String, String>)
    ensures
        shortcut_switch(
            *old(registrar),
            *final(registrar),
            old(state)@,
            shortcut@,
            text_view(r),
        ),
        !acceptable(shortcut@) ==> *final(registrar) == *old(registrar),
        r is Ok ==> final(state)@ == r->Ok_0@,
        r is Err ==> final(state)@ == old(state)@,
{
    let current = state.get();
    let next = update_registered_shortcut(registrar, current.as_str(), shortcut)?;
    state.set(next.clone());
    Ok(next)
}

/// Registers the current capture shortcut unless it is registered already.
pub fn ensure_default_capture_shortcut<R: ShortcutRegistrar>(
    state: &CaptureShortcutState,
    registrar: &mut R,
) -> (r: Result<(), String>)
    ensures
        old(registrar).modeled() ==> {
            &&& r is Ok ==> final(registrar).registered() == old(registrar).registered().insert(
                state@,
            )
            &&& r is Err ==> final(registrar).registered() == old(registrar).registered()
            &&& old(registrar).registered().contains(state@) ==> r is Ok
            &&& old(registrar).accepts(state@) ==> r is Ok
            &&& !old(registrar).registered().contains(state@) && old(registrar).refusal(
                state@,
            ) is Some ==> r is Err && r->Err_0@ == old(registrar).refusal(state@)->Some_0
        },
{
    let current = state.get();
    if registrar.is_registered(current.as_str()) {
        proof {
            if old(registrar).modeled() {
                assert(old(registrar).registered().insert(state@) =~= old(registrar).registered());
            }
        }
        return Ok(());
    }
    registrar.register_with_handler(current.as_str())
}

} // verus!
