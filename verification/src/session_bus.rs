use vstd::prelude::*;

use zbus::names::BusName;

verus! {

/// `zbus::names::BusName`, a validated D-Bus bus name.
#[verifier::external_type_specification]
#[verifier::external_body]
pub struct ExBusName<'name>(zbus::names::BusName<'name>);

/// `zbus::names::Error`, the reason a name was refused.
#[verifier::external_type_specification]
#[verifier::external_body]
pub struct ExNamesError(zbus::names::Error);

/// The bus name that hosts of StatusNotifierItems (Linux tray icons) own on
/// the session bus.
pub const STATUS_NOTIFIER_WATCHER: &'static str = "org.kde.StatusNotifierWatcher";

/// A character allowed inside a bus name element: ASCII letters and
/// digits, `_` and `-`.
pub open spec fn is_bus_name_char(c: char) -> bool {
    ('a' <= c && c <= 'z') || ('A' <= c && c <= 'Z') || ('0' <= c && c <= '9') || c == '_' || c
        == '-'
}

/// Non-empty elements of bus name characters separated by single dots, at
/// least two of them.
pub open spec fn is_dotted_elements(s: Seq<char>) -> bool {
    &&& s.len() > 0
    &&& s[0] != '.'
    &&& s.last() != '.'
    &&& exists|i: int| 0 <= i < s.len() && s[i] == '.'
    &&& forall|i: int| 0 <= i < s.len() ==> is_bus_name_char(#[trigger] s[i]) || s[i] == '.'
    &&& forall|i: int| 0 <= i < s.len() - 1 && #[trigger] s[i] == '.' ==> s[i + 1] != '.'
}

/// A well-known bus name: dotted elements none of which starts with a digit.
pub open spec fn is_well_known_bus_name(s: Seq<char>) -> bool {
    &&& is_dotted_elements(s)
    &&& !('0' <= s[0] && s[0] <= '9')
    &&& forall|i: int|
        0 <= i < s.len() - 1 && #[trigger] s[i] == '.' ==> !('0' <= s[i + 1] && s[i + 1] <= '9')
}

/// A unique bus name: the bus's own name, or `:` followed by dotted
/// elements.
pub open spec fn is_unique_bus_name(s: Seq<char>) -> bool {
    ||| s == "org.freedesktop.DBus"@
    ||| (s.len() > 0 && s[0] == ':' && is_dotted_elements(s.drop_first()))
}

/// The names that `zbus` accepts as bus names: unique or well-known names
/// of at most 255 characters.
pub open spec fn is_valid_bus_name(s: Seq<char>) -> bool {
    &&& s.len() <= 255
    &&& (is_unique_bus_name(s) || is_well_known_bus_name(s))
}

/// The text of a bus name, as `BusName::as_str` gives it back.
pub uninterp spec fn bus_name_text(name: BusName<'static>) -> Seq<char>;

/// Calls `<zbus::names::BusName as TryFrom<&str>>::try_from`.
///
/// Claimed of it: the name is accepted exactly when it is a valid unique
/// or well-known bus name, as zbus_names' `unique_name::validate_bytes` and
/// `well_known_name::validate_bytes` check it, and an accepted name holds the
/// text it was given (the conversion wraps the `&str` unchanged). Nothing is
/// claimed of which error comes back.
#[verifier::external_body]
fn parse_bus_name(name: &'static str) -> (parsed: Result<BusName<'static>, zbus::names::Error>)
    ensures
        parsed is Ok <==> is_valid_bus_name(name@),
        parsed matches Ok(bus_name) ==> bus_name_text(bus_name) == name@,
{
    BusName::try_from(name)
}

/// The StatusNotifierWatcher's bus name, ready to query its owner. The
/// name is valid, so it is always there.
pub fn status_notifier_watcher_name() -> (name: Option<BusName<'static>>)
    ensures
        name matches Some(bus_name) && bus_name_text(bus_name) == STATUS_NOTIFIER_WATCHER@,
{
    proof {
        lemma_watcher_name_is_valid();
    }
    match parse_bus_name(STATUS_NOTIFIER_WATCHER) {
        Ok(name) => Some(name),
        Err(_) => None,
    }
}

/// The watcher's name is a valid well-known bus name.
proof fn lemma_watcher_name_is_valid()
    ensures
        is_valid_bus_name(STATUS_NOTIFIER_WATCHER@),
{
    reveal_strlit("org.kde.StatusNotifierWatcher");
    let s = STATUS_NOTIFIER_WATCHER@;
    assert(s[3] == '.');
    assert(is_well_known_bus_name(s));
}

} // verus!
