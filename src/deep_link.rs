use vstd::prelude::*;
use vstd::string::*;

verus! {

/// The custom URL scheme prefix that marks an argument as a deep link.
pub open spec fn scheme_prefix() -> Seq<char> {
    seq!['t', 'a', 'k', 'm', 'a', ':', '/', '/']
}

/// `s` begins with the scheme prefix, compared character by character.
pub open spec fn has_scheme_prefix(s: Seq<char>) -> bool {
    s.len() >= scheme_prefix().len() && s.subrange(0, scheme_prefix().len() as int)
        == scheme_prefix()
}

/// Decides whether an already lower-cased argument starts with the scheme prefix.
pub fn starts_with_scheme(lowered: &str) -> (r: bool)
    ensures
        r == has_scheme_prefix(lowered@),
{
    let prefix: [char; 8] = ['t', 'a', 'k', 'm', 'a', ':', '/', '/'];
    assert(prefix@ == scheme_prefix());
    let n = lowered.unicode_len();
    if n < 8 {
        return false;
    }
    let mut i: usize = 0;
    while i < 8
        invariant
            0 <= i <= 8,
            n == lowered@.len(),
            n >= 8,
            prefix@ == scheme_prefix(),
            forall|j: int| 0 <= j < i ==> lowered@[j] == scheme_prefix()[j],
        decreases 8 - i,
    {
        if lowered.get_char(i) != prefix[i] {
            assert(lowered@.subrange(0, 8)[i as int] != scheme_prefix()[i as int]);
            return false;
        }
        i = i + 1;
    }
    assert(lowered@.subrange(0, 8) =~= scheme_prefix());
    true
}

/// The lower-case form of a string, as Unicode case mapping gives it.
pub uninterp spec fn lower_of(s: Seq<char>) -> Seq<char>;

/// Relies on `str::to_lowercase`: the result is the Unicode lower-case mapping of the
/// characters of `s`, a function of those characters alone.
#[verifier::external_body]
fn lowercase(s: &str) -> (r: String)
    ensures
        r@ == lower_of(s@),
{
    s.to_lowercase()
}

/// An argument is a deep link when its lower-case form starts with the scheme prefix.
pub open spec fn is_deep_link(arg: Seq<char>) -> bool {
    has_scheme_prefix(lower_of(arg))
}

/// The character sequences of a list of strings.
pub open spec fn arg_views(args: Seq<String>) -> Seq<Seq<char>> {
    args.map_values(|s: String| s@)
}

/// The character sequence of an optional string.
pub open spec fn opt_view(o: Option<String>) -> Option<Seq<char>> {
    match o {
        Some(s) => Some(s@),
        None => None,
    }
}

/// The first deep link among `args[i..]`, if there is one.
pub open spec fn first_deep_link_from(args: Seq<Seq<char>>, i: int) -> Option<Seq<char>>
    decreases args.len() - i,
{
    if 0 <= i < args.len() {
        if is_deep_link(args[i]) {
            Some(args[i])
        } else {
            first_deep_link_from(args, i + 1)
        }
    } else {
        None
    }
}

/// The deep link found in a launch's arguments: the first one after the executable path.
pub open spec fn startup_deep_link(args: Seq<Seq<char>>) -> Option<Seq<char>> {
    first_deep_link_from(args, 1)
}

/// Tells whether one argument is a deep link, ignoring case.
pub fn is_deep_link_arg(arg: &str) -> (r: bool)
    ensures
        r == is_deep_link(arg@),
{
    let lowered = lowercase(arg);
    starts_with_scheme(lowered.as_str())
}

/// Finds the first deep link in a launch's arguments, skipping the executable path.
pub fn find_startup_deep_link(args: &Vec<String>) -> (r: Option<String>)
    ensures
        opt_view(r) == startup_deep_link(arg_views(args@)),
{
    let ghost v = arg_views(args@);
    let n = args.len();
    if n <= 1 {
        return None;
    }
    let mut i: usize = 1;
    while i < n
        invariant
            1 <= i <= n,
            n == args@.len(),
            v == arg_views(args@),
            startup_deep_link(v) == first_deep_link_from(v, i as int),
        decreases n - i,
    {
        let arg = &args[i];
        if is_deep_link_arg(arg.as_str()) {
            assert(v[i as int] == arg@);
            return Some(arg.clone());
        }
        assert(v[i as int] == arg@);
        i = i + 1;
    }
    None
}

} // verus!
