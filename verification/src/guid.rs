//! Content-addressed 128-bit identities and their canonical text form.

use std::cmp::Ordering;
use vstd::prelude::*;
use vstd::std_specs::cmp::PartialEqSpecImpl;
use vstd::std_specs::cmp::PartialOrdSpecImpl;
use vstd::string::StringSliceAdditionalSpecFns;
use vstd::utf8::encode_utf8;

verus! {

/// The MD5 digest of a byte string.
pub uninterp spec fn md5_digest(data: Seq<u8>) -> Seq<u8>;

/// Calls `extendhash::md5::compute_hash`, which pads its input and folds it
/// block by block into the sixteen bytes of the MD5 digest. The digest depends
/// on the input bytes alone, and the call returns for every input.
#[verifier::external_body]
fn md5(data: &[u8]) -> (digest: [u8; 16])
    ensures
        digest@ == md5_digest(data@),
{
    extendhash::md5::compute_hash(data)
}

/// Calls `String::push`, which appends one character to the end of the string.
#[verifier::external_body]
fn push_char(text: &mut String, c: char)
    ensures
        final(text)@ == old(text)@.push(c),
{
    text.push(c)
}

/// A 128-bit identity: the MD5 digest of a canonical name. Identities are
/// ordered by their bytes, the first byte counting most.
#[derive(Clone, Copy, Debug, Eq, Ord, Hash)]
pub struct Guid(pub [u8; 16]);

impl View for Guid {
    type V = Seq<u8>;

    open spec fn view(&self) -> Seq<u8> {
        self.0@
    }
}

impl PartialEq for Guid {
    fn eq(&self, other: &Guid) -> (equal: bool) {
        let mut i: usize = 0;
        while i < 16
            invariant
                i <= 16,
                forall|k: int| 0 <= k < i ==> self@[k] == other@[k],
            decreases 16 - i,
        {
            if self.0[i] != other.0[i] {
                return false;
            }
            i += 1;
        }
        proof {
            assert(self@ =~= other@);
            lemma_guid_equal_by_bytes(*self, *other);
        }
        true
    }
}

impl PartialEqSpecImpl for Guid {
    open spec fn obeys_eq_spec() -> bool {
        true
    }

    open spec fn eq_spec(&self, other: &Guid) -> bool {
        *self == *other
    }
}

/// Two identities with the same bytes are the same identity.
pub proof fn lemma_guid_equal_by_bytes(a: Guid, b: Guid)
    ensures
        (a@ == b@) <==> (a == b),
{
    if a@ == b@ {
        assert(a.0 =~= b.0);
    }
}

/// How two byte strings of one length compare: by their bytes at the first
/// position where they differ, and as equal where they differ nowhere.
pub open spec fn bytewise(a: Seq<u8>, b: Seq<u8>) -> Ordering
    decreases a.len(),
{
    if a.len() == 0 || b.len() == 0 {
        Ordering::Equal
    } else if a[0] < b[0] {
        Ordering::Less
    } else if a[0] > b[0] {
        Ordering::Greater
    } else {
        bytewise(a.drop_first(), b.drop_first())
    }
}

/// Byte strings that agree up to a position compare as their rests from that
/// position do.
pub proof fn lemma_bytewise_skips_common_prefix(a: Seq<u8>, b: Seq<u8>, n: int)
    requires
        a.len() == b.len(),
        0 <= n <= a.len(),
        forall|k: int| 0 <= k < n ==> a[k] == b[k],
    ensures
        bytewise(a, b) == bytewise(a.skip(n), b.skip(n)),
    decreases n,
{
    if n > 0 {
        lemma_bytewise_skips_common_prefix(a.drop_first(), b.drop_first(), n - 1);
        assert(a.drop_first().skip(n - 1) =~= a.skip(n));
        assert(b.drop_first().skip(n - 1) =~= b.skip(n));
    } else {
        assert(a.skip(0) =~= a);
        assert(b.skip(0) =~= b);
    }
}

/// The order is total on byte strings of one length: two of them compare as
/// equal exactly when they are equal, and as less one way exactly when they
/// compare as greater the other way.
pub proof fn lemma_bytewise_total(a: Seq<u8>, b: Seq<u8>)
    requires
        a.len() == b.len(),
    ensures
        (bytewise(a, b) == Ordering::Equal) <==> a == b,
        (bytewise(a, b) == Ordering::Less) <==> (bytewise(b, a) == Ordering::Greater),
        (bytewise(a, b) == Ordering::Greater) <==> (bytewise(b, a) == Ordering::Less),
    decreases a.len(),
{
    if a.len() > 0 {
        lemma_bytewise_total(a.drop_first(), b.drop_first());
        if a[0] == b[0] && a.drop_first() == b.drop_first() {
            assert(a =~= seq![a[0]] + a.drop_first());
            assert(b =~= seq![b[0]] + b.drop_first());
        }
    } else {
        assert(a =~= b);
    }
}

/// The order is transitive on byte strings of one length.
pub proof fn lemma_bytewise_transitive(a: Seq<u8>, b: Seq<u8>, c: Seq<u8>)
    requires
        a.len() == b.len(),
        b.len() == c.len(),
        bytewise(a, b) != Ordering::Greater,
        bytewise(b, c) != Ordering::Greater,
    ensures
        bytewise(a, c) != Ordering::Greater,
        bytewise(a, b) == Ordering::Less || bytewise(b, c) == Ordering::Less ==> bytewise(a, c)
            == Ordering::Less,
    decreases a.len(),
{
    if a.len() > 0 {
        if a[0] == b[0] && b[0] == c[0] {
            lemma_bytewise_transitive(a.drop_first(), b.drop_first(), c.drop_first());
        }
    }
}

impl PartialOrd for Guid {
    fn partial_cmp(&self, other: &Guid) -> (order: Option<Ordering>) {
        let mut i: usize = 0;
        let ghost mut agreed: int = 0;
        while i < 16
            invariant
                i <= 16,
                agreed == i,
                forall|k: int| 0 <= k < i ==> self@[k] == other@[k],
            decreases 16 - i,
        {
            let a: u8 = self.0[i];
            let b: u8 = other.0[i];
            if a != b {
                proof {
                    lemma_bytewise_skips_common_prefix(self@, other@, agreed);
                    assert(self@.skip(agreed)[0] == a && other@.skip(agreed)[0] == b);
                }
                return Some(if a < b { Ordering::Less } else { Ordering::Greater });
            }
            i += 1;
            proof {
                agreed = agreed + 1;
            }
        }
        proof {
            lemma_bytewise_skips_common_prefix(self@, other@, 16);
        }
        Some(Ordering::Equal)
    }
}

impl PartialOrdSpecImpl for Guid {
    open spec fn obeys_partial_cmp_spec() -> bool {
        true
    }

    open spec fn partial_cmp_spec(&self, other: &Guid) -> Option<Ordering> {
        Some(bytewise(self@, other@))
    }
}

/// The lowercase hexadecimal digit for a value below sixteen.
pub open spec fn hex_digit(nibble: int) -> char {
    if nibble < 10 {
        (0x30 + nibble) as char
    } else {
        (0x61 + nibble - 10) as char
    }
}

/// Two lowercase hexadecimal digits per byte, high half first.
pub open spec fn lower_hex(bytes: Seq<u8>) -> Seq<char> {
    Seq::new(
        2 * bytes.len(),
        |k: int|
            hex_digit(
                if k % 2 == 0 {
                    bytes[k / 2] as int / 16
                } else {
                    bytes[k / 2] as int % 16
                },
            ),
    )
}

/// The canonical text of sixteen bytes: their hexadecimal digits in groups of
/// 8, 4, 4, 4 and 12, with a hyphen between groups.
#[verifier::opaque]
pub open spec fn hyphenated(bytes: Seq<u8>) -> Seq<char> {
    lower_hex(bytes.subrange(0, 4)) + seq!['-'] + lower_hex(bytes.subrange(4, 6)) + seq!['-']
        + lower_hex(bytes.subrange(6, 8)) + seq!['-'] + lower_hex(bytes.subrange(8, 10))
        + seq!['-'] + lower_hex(bytes.subrange(10, 16))
}

/// How many hyphens stand before the digits of byte `i` in the canonical text.
pub open spec fn hyphens_before(i: int) -> int {
    if i < 4 {
        0
    } else if i < 6 {
        1
    } else if i < 8 {
        2
    } else if i < 10 {
        3
    } else {
        4
    }
}

/// Where each character of the canonical text comes from: byte `i` fills the
/// positions `2 * i + hyphens_before(i)` and the next, and a hyphen precedes
/// bytes 4, 6, 8 and 10.
pub proof fn lemma_hyphenated_positions(bytes: Seq<u8>)
    requires
        bytes.len() == 16,
    ensures
        hyphenated(bytes).len() == 36,
        hyphenated(bytes)[8] == '-',
        hyphenated(bytes)[13] == '-',
        hyphenated(bytes)[18] == '-',
        hyphenated(bytes)[23] == '-',
        forall|i: int|
            #![trigger bytes[i]]
            0 <= i < 16 ==> {
                &&& hyphenated(bytes)[2 * i + hyphens_before(i)] == hex_digit(bytes[i] as int / 16)
                &&& hyphenated(bytes)[2 * i + hyphens_before(i) + 1] == hex_digit(
                    bytes[i] as int % 16,
                )
            },
{
    reveal(hyphenated);
    let g0 = lower_hex(bytes.subrange(0, 4));
    let g1 = lower_hex(bytes.subrange(4, 6));
    let g2 = lower_hex(bytes.subrange(6, 8));
    let g3 = lower_hex(bytes.subrange(8, 10));
    let g4 = lower_hex(bytes.subrange(10, 16));
    assert(g0.len() == 8 && g1.len() == 4 && g2.len() == 4 && g3.len() == 4 && g4.len() == 12);
    assert forall|i: int| 0 <= i < 16 implies {
        &&& hyphenated(bytes)[2 * i + hyphens_before(i)] == hex_digit(
            #[trigger] bytes[i] as int / 16,
        )
        &&& hyphenated(bytes)[2 * i + hyphens_before(i) + 1] == hex_digit(bytes[i] as int % 16)
    } by {
        if i < 4 {
            assert(g0[2 * i] == hex_digit(bytes.subrange(0, 4)[i] as int / 16));
            assert(g0[2 * i + 1] == hex_digit(bytes.subrange(0, 4)[i] as int % 16));
        } else if i < 6 {
            assert(g1[2 * (i - 4)] == hex_digit(bytes.subrange(4, 6)[i - 4] as int / 16));
            assert(g1[2 * (i - 4) + 1] == hex_digit(bytes.subrange(4, 6)[i - 4] as int % 16));
        } else if i < 8 {
            assert(g2[2 * (i - 6)] == hex_digit(bytes.subrange(6, 8)[i - 6] as int / 16));
            assert(g2[2 * (i - 6) + 1] == hex_digit(bytes.subrange(6, 8)[i - 6] as int % 16));
        } else if i < 10 {
            assert(g3[2 * (i - 8)] == hex_digit(bytes.subrange(8, 10)[i - 8] as int / 16));
            assert(g3[2 * (i - 8) + 1] == hex_digit(bytes.subrange(8, 10)[i - 8] as int % 16));
        } else {
            assert(g4[2 * (i - 10)] == hex_digit(bytes.subrange(10, 16)[i - 10] as int / 16));
            assert(g4[2 * (i - 10) + 1] == hex_digit(bytes.subrange(10, 16)[i - 10] as int % 16));
        }
    }
}

/// Whether a character is a decimal digit or one of the letters `a` to `f`.
pub open spec fn is_lower_hex_digit(c: char) -> bool {
    ('0' <= c && c <= '9') || ('a' <= c && c <= 'f')
}

/// The canonical text always has 36 characters, a hyphen at each of the
/// positions 8, 13, 18 and 23, and a lowercase hexadecimal digit everywhere
/// else.
pub proof fn lemma_hyphenated_shape(bytes: Seq<u8>)
    requires
        bytes.len() == 16,
    ensures
        hyphenated(bytes).len() == 36,
        forall|j: int|
            0 <= j < 36 ==> if j == 8 || j == 13 || j == 18 || j == 23 {
                #[trigger] hyphenated(bytes)[j] == '-'
            } else {
                is_lower_hex_digit(hyphenated(bytes)[j])
            },
{
    lemma_hyphenated_positions(bytes);
    assert forall|j: int|
        0 <= j < 36 && j != 8 && j != 13 && j != 18 && j != 23 implies is_lower_hex_digit(
        #[trigger] hyphenated(bytes)[j],
    ) by {
        let skipped: int = if j < 8 {
            0
        } else if j < 13 {
            1
        } else if j < 18 {
            2
        } else if j < 23 {
            3
        } else {
            4
        };
        let i = (j - skipped) / 2;
        let b = bytes[i];
        assert(hyphens_before(i) == skipped);
        assert(j == 2 * i + skipped || j == 2 * i + skipped + 1);
        assert(is_lower_hex_digit(hex_digit(b as int / 16)));
        assert(is_lower_hex_digit(hex_digit(b as int % 16)));
    }
}

impl Guid {
    /// The identity whose bytes are the digest of the given bytes.
    pub open spec fn of_bytes(bytes: Seq<u8>) -> Guid {
        choose|guid: Guid| guid@ == md5_digest(bytes)
    }

    /// The identity of a name: that of its UTF-8 bytes.
    pub open spec fn of_name(name: Seq<char>) -> Guid {
        Guid::of_bytes(encode_utf8(name))
    }

    /// The identity of a name: the digest of its UTF-8 bytes. Equal names give
    /// the same identity.
    pub fn from_str(s: &str) -> (guid: Guid)
        ensures
            guid@ == md5_digest(s.spec_bytes()),
            guid == Guid::of_name(s@),
    {
        let guid = Guid(md5(s.as_bytes()));
        proof {
            lemma_guid_equal_by_bytes(guid, Guid::of_name(s@));
        }
        guid
    }

    /// The identity of a name given as the bytes of a C string, without its
    /// terminator. Equal bytes give the same identity.
    pub fn from_cstr(s: &[u8]) -> (guid: Guid)
        ensures
            guid@ == md5_digest(s@),
            guid == Guid::of_bytes(s@),
    {
        let guid = Guid(md5(s));
        proof {
            lemma_guid_equal_by_bytes(guid, Guid::of_bytes(s@));
        }
        guid
    }

    /// The canonical text as 36 ASCII bytes.
    pub fn format_hyphenated(&self) -> (text: [u8; 36])
        ensures
            text@.len() == 36,
            forall|j: int| 0 <= j < 36 ==> #[trigger] text@[j] as char == hyphenated(self@)[j],
    {
        let mut dst = [0u8; 36];
        let mut i: usize = 0;
        let mut j: usize = 0;
        proof {
            lemma_hyphenated_positions(self@);
        }
        while i < 16
            invariant
                i <= 16,
                j == 2 * i + hyphens_before(i as int),
                hyphenated(self@).len() == 36,
                hyphenated(self@)[8] == '-',
                hyphenated(self@)[13] == '-',
                hyphenated(self@)[18] == '-',
                hyphenated(self@)[23] == '-',
                forall|b: int|
                    #![trigger self@[b]]
                    0 <= b < 16 ==> {
                        &&& hyphenated(self@)[2 * b + hyphens_before(b)] == hex_digit(
                            self@[b] as int / 16,
                        )
                        &&& hyphenated(self@)[2 * b + hyphens_before(b) + 1] == hex_digit(
                            self@[b] as int % 16,
                        )
                    },
                forall|k: int| 0 <= k < j ==> #[trigger] dst@[k] as char == hyphenated(self@)[k],
            decreases 16 - i,
        {
            let x: u8 = self.0[i];
            assert(x >> 4 == x / 16 && x & 0x0f == x % 16) by (bit_vector);
            assert(self@[i as int] == x);
            dst[j] = hex_byte(x >> 4);
            dst[j + 1] = hex_byte(x & 0x0f);
            j += 2;
            if i == 3 || i == 5 || i == 7 || i == 9 {
                dst[j] = 0x2d;
                j += 1;
            }
            i += 1;
        }
        dst
    }

    /// The canonical text: 36 characters, lowercase hexadecimal digits in
    /// groups of 8, 4, 4, 4 and 12 with hyphens between them.
    pub fn to_string(&self) -> (text: String)
        ensures
            text@ == hyphenated(self@),
            text@.len() == 36,
            forall|j: int|
                0 <= j < 36 ==> if j == 8 || j == 13 || j == 18 || j == 23 {
                    #[trigger] text@[j] == '-'
                } else {
                    is_lower_hex_digit(text@[j])
                },
    {
        let bytes = self.format_hyphenated();
        let mut text = String::new();
        let mut j: usize = 0;
        proof {
            lemma_hyphenated_shape(self@);
        }
        while j < 36
            invariant
                j <= 36,
                hyphenated(self@).len() == 36,
                text@ == hyphenated(self@).take(j as int),
                forall|k: int| 0 <= k < 36 ==> #[trigger] bytes@[k] as char == hyphenated(self@)[k],
            decreases 36 - j,
        {
            let b: u8 = bytes[j];
            assert(bytes@[j as int] as char == hyphenated(self@)[j as int]);
            push_char(&mut text, b as char);
            j += 1;
            assert(text@ == hyphenated(self@).take(j as int));
        }
        text
    }
}

/// The ASCII code of the lowercase hexadecimal digit for a value below sixteen.
fn hex_byte(nibble: u8) -> (digit: u8)
    requires
        nibble < 16,
    ensures
        digit as char == hex_digit(nibble as int),
{
    if nibble < 10 {
        0x30 + nibble
    } else {
        0x61 + (nibble - 10)
    }
}

/// The identity of a name depends on the name alone: equal names have equal
/// identities, byte for byte, and a name has the identity of its UTF-8 bytes.
pub proof fn lemma_identity_determined_by_name(a: Seq<char>, b: Seq<char>)
    requires
        a == b,
    ensures
        Guid::of_name(a) == Guid::of_name(b),
        Guid::of_name(a)@ == Guid::of_name(b)@,
        Guid::of_name(a) == Guid::of_bytes(encode_utf8(b)),
{
}

} // verus!
