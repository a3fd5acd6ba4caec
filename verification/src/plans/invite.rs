use vstd::prelude::*;

use crate::common::ids::{new_id, EntityId};

verus! {

/// The lowercase hexadecimal digit for `d` (0 to 15).
pub open spec fn hex_digit(d: int) -> char {
    if d < 10 {
        (d + 48) as char
    } else {
        (d + 87) as char
    }
}

/// Whether `c` is a lowercase hexadecimal digit.
pub open spec fn is_hex_digit(c: char) -> bool {
    ('0' <= c && c <= '9') || ('a' <= c && c <= 'f')
}

/// The last `width` hexadecimal digits of `n`, most significant first,
/// zero-padded.
pub open spec fn hex_text(n: nat, width: nat) -> Seq<char>
    decreases width,
{
    if width == 0 {
        seq![]
    } else {
        hex_text(n / 16, (width - 1) as nat) + seq![hex_digit((n % 16) as int)]
    }
}

/// The text of an identifier as a UUID: its 32 hexadecimal digits in
/// groups of 8, 4, 4, 4 and 12, joined by hyphens.
pub open spec fn uuid_text(id: EntityId) -> Seq<char> {
    let h = hex_text(id as nat, 32);
    h.subrange(0, 8) + seq!['-'] + h.subrange(8, 12) + seq!['-'] + h.subrange(12, 16) + seq!['-']
        + h.subrange(16, 20) + seq!['-'] + h.subrange(20, 32)
}

/// `hex_text` has the asked width, and every character is a hexadecimal
/// digit.
proof fn lemma_hex_text(n: nat, width: nat)
    ensures
        hex_text(n, width).len() == width,
        forall|k: int| 0 <= k < width ==> #[trigger] is_hex_digit(hex_text(n, width)[k]),
    decreases width,
{
    if width > 0 {
        lemma_hex_text(n / 16, (width - 1) as nat);
        let d = (n % 16) as int;
        assert(is_hex_digit(hex_digit(d)));
        let s = hex_text(n, width);
        assert forall|k: int| 0 <= k < width implies #[trigger] is_hex_digit(s[k]) by {
            if k < width - 1 {
                assert(s[k] == hex_text(n / 16, (width - 1) as nat)[k]);
            }
        }
    }
}

/// Calls `uuid::Uuid::from_u128(id)` and its `Display`, which writes the
/// hyphenated form in lowercase: the 128 bits as 32 hexadecimal digits,
/// most significant first, in groups of 8, 4, 4, 4 and 12 joined by
/// hyphens. That is the claim.
#[verifier::external_body]
fn uuid_text_of(id: EntityId) -> (res: String)
    ensures
        res@ == uuid_text(id),
{
    uuid::Uuid::from_u128(id).to_string()
}

/// The invite code made from `id`: its text as a UUID with the hyphens
/// taken out, cut to the first eight characters, which are the first
/// eight hexadecimal digits of the identifier.
pub fn invite_code_of(id: EntityId) -> (res: String)
    ensures
        res@ == hex_text(id as nat, 32).subrange(0, 8),
{
    let text = uuid_text_of(id);
    let ghost h = hex_text(id as nat, 32);
    proof {
        lemma_hex_text(id as nat, 32);
        assert(text@.len() == 36);
        assert forall|k: int| 0 <= k < 8 implies text@[k] == #[trigger] h[k] && text@[k] != '-' by {
            assert(is_hex_digit(h[k]));
        }
    }
    let mut out = String::new();
    let mut i: usize = 0;
    while out.unicode_len() < 8
        invariant
            i <= 8,
            text@ == uuid_text(id),
            h == hex_text(id as nat, 32),
            h.len() == 32,
            forall|k: int| 0 <= k < 8 ==> text@[k] == #[trigger] h[k] && text@[k] != '-',
            out@ == h.subrange(0, i as int),
        decreases 8 - i,
    {
        let piece = text.as_str().substring_char(i, i + 1);
        if piece.get_char(0) != '-' {
            out.append(piece);
        }
        assert(out@ =~= h.subrange(0, i + 1));
        i = i + 1;
    }
    out
}

/// A fresh invite code: eight lowercase hexadecimal digits made from a
/// new random identifier.
pub fn new_invite_code() -> (res: String)
    ensures
        res@.len() == 8,
        forall|k: int| 0 <= k < 8 ==> #[trigger] is_hex_digit(res@[k]),
{
    let id = new_id();
    proof { lemma_hex_text(id as nat, 32); }
    invite_code_of(id)
}

} // verus!
