use vstd::prelude::*;

verus! {

/// Relies on std's `String::push`: the character is appended at the end.
pub assume_specification[ String::push ](s: &mut String, ch: char)
    ensures
        final(s)@ == old(s)@.push(ch),
;

/// The number of octets of a hardware address.
pub const MAC_LEN: usize = 6;

/// The number of characters of a hardware address in text form.
pub const MAC_TEXT_LEN: usize = 17;

/// A node's 48-bit hardware address.
#[derive(Clone, Copy, Debug, PartialEq, Eq)]
pub struct Mac {
    pub octets: [u8; 6],
}

/// The value of a hexadecimal digit of either case.
pub open spec fn hex_value(c: char) -> Option<u8> {
    if '0' <= c && c <= '9' {
        Some(((c as u32) - ('0' as u32)) as u8)
    } else if 'a' <= c && c <= 'f' {
        Some(((c as u32) - ('a' as u32) + 10) as u8)
    } else if 'A' <= c && c <= 'F' {
        Some(((c as u32) - ('A' as u32) + 10) as u8)
    } else {
        None
    }
}

/// The lowercase hexadecimal digit of a value below 16.
pub open spec fn hex_char(n: u8) -> char {
    if n < 10 {
        (('0' as u8) + n) as char
    } else {
        (('a' as u8) + (n - 10)) as char
    }
}

/// A character with ASCII capitals made small.
pub open spec fn ascii_lower(c: char) -> char {
    if 'A' <= c && c <= 'Z' {
        ((c as u8) + 32) as char
    } else {
        c
    }
}

/// A text with ASCII capitals made small.
pub open spec fn ascii_lowercase(s: Seq<char>) -> Seq<char> {
    s.map_values(|c: char| ascii_lower(c))
}

/// Whether `s` has the form `xx:xx:xx:xx:xx:xx`, each `x` a hexadecimal
/// digit of either case.
pub open spec fn is_mac_text(s: Seq<char>) -> bool {
    &&& s.len() == MAC_TEXT_LEN
    &&& forall|j: int| 0 <= j < MAC_TEXT_LEN && j % 3 == 2 ==> s[j] == ':'
    &&& forall|j: int| 0 <= j < MAC_TEXT_LEN && j % 3 != 2 ==> (#[trigger] hex_value(s[j])) is Some
}

/// The octet written by the two digits at `3 * i` and `3 * i + 1`.
pub open spec fn octet_of_text(s: Seq<char>, i: int) -> u8 {
    (16 * hex_value(s[3 * i])->0 + hex_value(s[3 * i + 1])->0) as u8
}

/// The canonical text of an address: lowercase, colon-separated hexadecimal.
pub open spec fn canonical_text(octets: Seq<u8>) -> Seq<char> {
    Seq::new(
        MAC_TEXT_LEN as nat,
        |j: int|
            if j % 3 == 2 {
                ':'
            } else if j % 3 == 0 {
                hex_char(octets[j / 3] / 16)
            } else {
                hex_char(octets[j / 3] % 16)
            },
    )
}

/// The value of a hexadecimal digit of either case.
fn hex_digit_value(c: char) -> (r: Option<u8>)
    ensures
        r == hex_value(c),
{
    if '0' <= c && c <= '9' {
        Some(((c as u32) - ('0' as u32)) as u8)
    } else if 'a' <= c && c <= 'f' {
        Some(((c as u32) - ('a' as u32) + 10) as u8)
    } else if 'A' <= c && c <= 'F' {
        Some(((c as u32) - ('A' as u32) + 10) as u8)
    } else {
        None
    }
}

/// The lowercase hexadecimal digit of a value below 16.
fn hex_digit_char(n: u8) -> (c: char)
    requires
        n < 16,
    ensures
        c == hex_char(n),
{
    if n < 10 {
        (('0' as u8) + n) as char
    } else {
        (('a' as u8) + (n - 10)) as char
    }
}

impl Mac {
    /// The address of the given octets.
    pub fn new(octets: [u8; 6]) -> (r: Mac)
        ensures
            r.octets == octets,
    {
        Mac { octets }
    }

    /// Parses `xx:xx:xx:xx:xx:xx`, each `x` a hexadecimal digit of either
    /// case; any other text gives `None`.
    pub fn parse(s: &str) -> (r: Option<Mac>)
        ensures
            is_mac_text(s@) <==> r is Some,
            r is Some ==> forall|i: int|
                0 <= i < MAC_LEN ==> #[trigger] r->0.octets@[i] == octet_of_text(s@, i),
    {
        let n = s.unicode_len();
        if n != MAC_TEXT_LEN {
            return None;
        }
        let mut octets: [u8; 6] = [0u8; 6];
        let mut i: usize = 0;
        while i < MAC_LEN
            invariant
                n == s@.len() == MAC_TEXT_LEN,
                i <= MAC_LEN,
                forall|j: int| 0 <= j < 3 * i && j < MAC_TEXT_LEN && j % 3 == 2 ==> s@[j] == ':',
                forall|j: int| 0 <= j < 3 * i && j % 3 != 2 ==> (#[trigger] hex_value(s@[j])) is Some,
                forall|k: int| 0 <= k < i ==> #[trigger] octets@[k] == octet_of_text(s@, k),
            decreases MAC_LEN - i,
        {
            let hi = hex_digit_value(s.get_char(3 * i));
            let lo = hex_digit_value(s.get_char(3 * i + 1));
            match (hi, lo) {
                (Some(h), Some(l)) => {
                    if i + 1 < MAC_LEN && s.get_char(3 * i + 2) != ':' {
                        assert(!is_mac_text(s@)) by {
                            assert((3 * i + 2) % 3 == 2);
                        }
                        return None;
                    }
                    assert(h < 16 && l < 16);
                    octets[i] = 16 * h + l;
                    proof {
                        assert forall|j: int|
                            0 <= j < 3 * (i + 1) && j < MAC_TEXT_LEN && j % 3 == 2 implies s@[j]
                            == ':' by {
                            if j >= 3 * i {
                                assert(j == 3 * i + 2);
                            }
                        }
                        assert forall|j: int| 0 <= j < 3 * (i + 1) && j % 3 != 2 implies (
                        #[trigger] hex_value(s@[j])) is Some by {
                            if j >= 3 * i {
                                assert(j == 3 * i || j == 3 * i + 1);
                            }
                        }
                    }
                    i = i + 1;
                },
                _ => {
                    assert(!is_mac_text(s@)) by {
                        assert((3 * i) % 3 == 0);
                        assert((3 * i + 1) % 3 == 1);
                        assert(hex_value(s@[3 * i as int]) is None || hex_value(
                            s@[3 * i + 1],
                        ) is None);
                    }
                    return None;
                },
            }
        }
        assert(is_mac_text(s@)) by {
            assert forall|j: int| 0 <= j < MAC_TEXT_LEN && j % 3 == 2 implies s@[j] == ':' by {
                assert(j < 3 * MAC_LEN);
            }
        }
        Some(Mac { octets })
    }

    /// The canonical text of the address: lowercase, colon-separated
    /// hexadecimal.
    pub fn to_canonical_string(&self) -> (r: String)
        ensures
            r@ == canonical_text(self.octets@),
    {
        let mut out = String::new();
        let mut i: usize = 0;
        while i < MAC_LEN
            invariant
                i <= MAC_LEN,
                out@.len() == if i == 0 { 0 } else { 3 * i - 1 },
                forall|j: int| 0 <= j < out@.len() ==> #[trigger] out@[j] == canonical_text(
                    self.octets@,
                )[j],
            decreases MAC_LEN - i,
        {
            let o = self.octets[i];
            if i > 0 {
                out.push(':');
            }
            out.push(hex_digit_char(o / 16));
            out.push(hex_digit_char(o % 16));
            i = i + 1;
        }
        assert(out@ =~= canonical_text(self.octets@));
        out
    }
}

/// Parsing a supported address text and writing it back in canonical form
/// gives the text with its capitals made small.
pub proof fn lemma_canonical_parse(s: Seq<char>, octets: Seq<u8>)
    requires
        is_mac_text(s),
        octets.len() == MAC_LEN,
        forall|i: int| 0 <= i < MAC_LEN ==> #[trigger] octets[i] == octet_of_text(s, i),
    ensures
        canonical_text(octets) == ascii_lowercase(s),
{
    assert forall|j: int| 0 <= j < MAC_TEXT_LEN implies #[trigger] canonical_text(octets)[j]
        == ascii_lowercase(s)[j] by {
        let i = j / 3;
        assert(0 <= i < MAC_LEN);
        if j % 3 == 2 {
        } else {
            assert(3 * i == j || 3 * i + 1 == j);
            let h = hex_value(s[3 * i])->0;
            let l = hex_value(s[3 * i + 1])->0;
            assert((3 * i) % 3 == 0 && (3 * i + 1) % 3 == 1);
            assert(h < 16 && l < 16);
            assert(octets[i] == 16 * h + l);
            assert((16 * h + l) / 16 == h && (16 * h + l) % 16 == l) by (nonlinear_arith)
                requires
                    h < 16,
                    l < 16,
            ;
        }
    }
    assert(canonical_text(octets) =~= ascii_lowercase(s));
}

/// Writing an address in canonical form and parsing the text gives the
/// address back.
pub proof fn lemma_parse_canonical(octets: Seq<u8>)
    requires
        octets.len() == MAC_LEN,
    ensures
        is_mac_text(canonical_text(octets)),
        forall|i: int|
            0 <= i < MAC_LEN ==> #[trigger] octet_of_text(canonical_text(octets), i) == octets[i],
{
    let t = canonical_text(octets);
    assert forall|j: int| 0 <= j < MAC_TEXT_LEN && j % 3 != 2 implies (#[trigger] hex_value(
        t[j],
    )) is Some by {
        let o = octets[j / 3];
        assert(o / 16 < 16 && o % 16 < 16);
    }
    assert forall|i: int| 0 <= i < MAC_LEN implies #[trigger] octet_of_text(t, i) == octets[i] by {
        assert((3 * i) % 3 == 0 && (3 * i + 1) % 3 == 1);
        assert((3 * i) / 3 == i && (3 * i + 1) / 3 == i);
        let o = octets[i];
        assert(16 * (o / 16) + o % 16 == o);
    }
}

} // verus!
