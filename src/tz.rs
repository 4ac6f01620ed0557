use vstd::prelude::*;

verus! {

/// A text without its last character (the newline that ends a command's
/// output); an empty text stays empty.
pub open spec fn without_last(s: Seq<char>) -> Seq<char> {
    if s.len() == 0 {
        s
    } else {
        s.drop_last()
    }
}

/// The index of the last `/` of `s` before position `k`, or `-1`.
pub open spec fn last_slash_before(s: Seq<char>, k: int) -> int
    decreases k,
{
    if k <= 0 {
        -1
    } else if s[k - 1] == '/' {
        k - 1
    } else {
        last_slash_before(s, k - 1)
    }
}

/// The zone that a path into the zone database names: its last two
/// components, as `Europe/Budapest` of `/usr/share/zoneinfo/Europe/Budapest`;
/// `None` when the path has no two non-empty last components.
pub open spec fn zone_of_path(s: Seq<char>) -> Option<Seq<char>> {
    let i = last_slash_before(s, s.len() as int);
    let j = last_slash_before(s, i);
    if i < 0 || i + 1 >= s.len() || j + 1 >= i {
        None
    } else {
        Some(s.subrange(j + 1, s.len() as int))
    }
}

proof fn lemma_last_slash_bounds(s: Seq<char>, k: int)
    requires
        0 <= k <= s.len(),
    ensures
        -1 <= last_slash_before(s, k) < k,
        last_slash_before(s, k) >= 0 ==> s[last_slash_before(s, k)] == '/',
    decreases k,
{
    if k > 0 && s[k - 1] != '/' {
        lemma_last_slash_bounds(s, k - 1);
    }
}

/// The index of the last `/` of `s` before position `k`, if there is one.
fn find_last_slash(s: &str, k: usize) -> (r: Option<usize>)
    requires
        k <= s@.len(),
    ensures
        r is None <==> last_slash_before(s@, k as int) < 0,
        r matches Some(i) ==> i == last_slash_before(s@, k as int),
{
    let mut i: usize = k;
    while i > 0
        invariant
            i <= k <= s@.len(),
            last_slash_before(s@, i as int) == last_slash_before(s@, k as int),
        decreases i,
    {
        if s.get_char(i - 1) == '/' {
            return Some(i - 1);
        }
        i = i - 1;
    }
    None
}

/// The time zone that a time zone query printed: its output without the
/// newline that ends it.
pub fn timezone_from_command_output(out: &str) -> (r: String)
    ensures
        r@ == without_last(out@),
{
    let n = out.unicode_len();
    if n == 0 {
        return out.to_owned();
    }
    out.substring_char(0, n - 1).to_owned()
}

/// The time zone named by the target of the link to the local time zone:
/// its last two components.
pub fn timezone_from_link_target(target: &str) -> (r: Option<String>)
    ensures
        r is None <==> zone_of_path(target@) is None,
        r is Some ==> r->0@ == zone_of_path(target@)->0,
{
    let n = target.unicode_len();
    proof {
        lemma_last_slash_bounds(target@, n as int);
    }
    let i = match find_last_slash(target, n) {
        Some(i) => i,
        None => return None,
    };
    if i + 1 >= n {
        return None;
    }
    proof {
        lemma_last_slash_bounds(target@, i as int);
    }
    let start = match find_last_slash(target, i) {
        Some(j) => j + 1,
        None => 0,
    };
    if start >= i {
        return None;
    }
    Some(target.substring_char(start, n).to_owned())
}

/// The system's time zone: what the time zone query printed, if it ran,
/// otherwise the zone that the local time link points into.
pub fn get_system_timezone(command_output: Option<&str>, localtime_target: Option<&str>) -> (r:
    Option<String>)
    ensures
        command_output matches Some(out) ==> r is Some && r->0@ == without_last(out@),
        command_output is None && localtime_target is None ==> r is None,
        command_output is None && localtime_target is Some ==> (r is None <==> zone_of_path(
            localtime_target->0@,
        ) is None) && (r is Some ==> r->0@ == zone_of_path(localtime_target->0@)->0),
{
    match command_output {
        Some(out) => Some(timezone_from_command_output(out)),
        None => match localtime_target {
            Some(target) => timezone_from_link_target(target),
            None => None,
        },
    }
}

} // verus!
