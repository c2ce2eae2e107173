use vstd::prelude::*;

use crate::text::push_char;

verus! {

/// The number of characters in a subscription token.
pub const TOKEN_LENGTH: usize = 32;

/// The lower-case hexadecimal digit for a value below sixteen.
pub open spec fn hex_digit(value: u8) -> char {
    if value == 0 {
        '0'
    } else if value == 1 {
        '1'
    } else if value == 2 {
        '2'
    } else if value == 3 {
        '3'
    } else if value == 4 {
        '4'
    } else if value == 5 {
        '5'
    } else if value == 6 {
        '6'
    } else if value == 7 {
        '7'
    } else if value == 8 {
        '8'
    } else if value == 9 {
        '9'
    } else if value == 10 {
        'a'
    } else if value == 11 {
        'b'
    } else if value == 12 {
        'c'
    } else if value == 13 {
        'd'
    } else if value == 14 {
        'e'
    } else {
        'f'
    }
}

/// Whether `c` is a lower-case hexadecimal digit.
pub open spec fn is_hex_digit(c: char) -> bool {
    ('0' <= c && c <= '9') || ('a' <= c && c <= 'f')
}

/// The four bits of `seed` that the token's character at `position` shows,
/// the highest bits first.
pub open spec fn nibble(seed: u128, position: int) -> u8 {
    ((seed >> (((31 - position) * 4) as u128)) & 0xf) as u8
}

/// The token made of `seed`: its 32 hexadecimal digits, the highest first.
pub open spec fn token_text(seed: u128) -> Seq<char> {
    Seq::new(TOKEN_LENGTH as nat, |i: int| hex_digit(nibble(seed, i)))
}

fn hex_char(value: u8) -> (c: char)
    requires
        value < 16,
    ensures
        c == hex_digit(value),
        is_hex_digit(c),
{
    if value == 0 {
        '0'
    } else if value == 1 {
        '1'
    } else if value == 2 {
        '2'
    } else if value == 3 {
        '3'
    } else if value == 4 {
        '4'
    } else if value == 5 {
        '5'
    } else if value == 6 {
        '6'
    } else if value == 7 {
        '7'
    } else if value == 8 {
        '8'
    } else if value == 9 {
        '9'
    } else if value == 10 {
        'a'
    } else if value == 11 {
        'b'
    } else if value == 12 {
        'c'
    } else if value == 13 {
        'd'
    } else if value == 14 {
        'e'
    } else {
        'f'
    }
}

/// Writes `seed` out as a token: 32 lower-case hexadecimal digits, so that the
/// token can stand in a URL as it is.
pub fn subscription_token(seed: u128) -> (token: String)
    ensures
        token@ == token_text(seed),
        token@.len() == TOKEN_LENGTH,
        forall|i: int| 0 <= i < token@.len() ==> is_hex_digit(#[trigger] token@[i]),
{
    let mut token = String::new();
    let mut i: usize = 0;
    while i < TOKEN_LENGTH
        invariant
            i <= TOKEN_LENGTH,
            token@.len() == i,
            forall|k: int| 0 <= k < i ==> token@[k] == hex_digit(nibble(seed, k)),
            forall|k: int| 0 <= k < i ==> is_hex_digit(#[trigger] token@[k]),
        decreases TOKEN_LENGTH - i,
    {
        let shift: u32 = ((31 - i) * 4) as u32;
        let bits: u128 = (seed >> shift) & 0xf;
        assert(bits < 16) by (bit_vector)
            requires
                bits == (seed >> shift) & 0xf,
        ;
        let value: u8 = bits as u8;
        assert(value == nibble(seed, i as int));
        let c = hex_char(value);
        push_char(&mut token, c);
        i = i + 1;
    }
    assert(token@ =~= token_text(seed));
    token
}

/// The four bits of a seed that one character shows are told by that
/// character.
proof fn digit_tells_bits(a: u128, b: u128, position: int)
    requires
        0 <= position < 32,
        token_text(a)[position] == token_text(b)[position],
    ensures
        (a >> (((31 - position) * 4) as u128)) & 0xf == (b >> (((31 - position) * 4) as u128))
            & 0xf,
{
    let shift = ((31 - position) * 4) as u128;
    let x = (a >> shift) & 0xf;
    let y = (b >> shift) & 0xf;
    assert(x < 16 && y < 16) by (bit_vector)
        requires
            x == (a >> shift) & 0xf,
            y == (b >> shift) & 0xf,
    ;
    assert(hex_digit(x as u8) == hex_digit(y as u8));
}

/// Different seeds give different tokens.
pub proof fn tokens_are_distinct(a: u128, b: u128)
    requires
        a != b,
    ensures
        token_text(a) != token_text(b),
{
    if token_text(a) == token_text(b) {
        digit_tells_bits(a, b, 31);
        digit_tells_bits(a, b, 30);
        digit_tells_bits(a, b, 29);
        digit_tells_bits(a, b, 28);
        digit_tells_bits(a, b, 27);
        digit_tells_bits(a, b, 26);
        digit_tells_bits(a, b, 25);
        digit_tells_bits(a, b, 24);
        digit_tells_bits(a, b, 23);
        digit_tells_bits(a, b, 22);
        digit_tells_bits(a, b, 21);
        digit_tells_bits(a, b, 20);
        digit_tells_bits(a, b, 19);
        digit_tells_bits(a, b, 18);
        digit_tells_bits(a, b, 17);
        digit_tells_bits(a, b, 16);
        digit_tells_bits(a, b, 15);
        digit_tells_bits(a, b, 14);
        digit_tells_bits(a, b, 13);
        digit_tells_bits(a, b, 12);
        digit_tells_bits(a, b, 11);
        digit_tells_bits(a, b, 10);
        digit_tells_bits(a, b, 9);
        digit_tells_bits(a, b, 8);
        digit_tells_bits(a, b, 7);
        digit_tells_bits(a, b, 6);
        digit_tells_bits(a, b, 5);
        digit_tells_bits(a, b, 4);
        digit_tells_bits(a, b, 3);
        digit_tells_bits(a, b, 2);
        digit_tells_bits(a, b, 1);
        digit_tells_bits(a, b, 0);
        assert(a == b) by (bit_vector)
            requires
                (a >> 0u128) & 0xf == (b >> 0u128) & 0xf,
                (a >> 4u128) & 0xf == (b >> 4u128) & 0xf,
                (a >> 8u128) & 0xf == (b >> 8u128) & 0xf,
                (a >> 12u128) & 0xf == (b >> 12u128) & 0xf,
                (a >> 16u128) & 0xf == (b >> 16u128) & 0xf,
                (a >> 20u128) & 0xf == (b >> 20u128) & 0xf,
                (a >> 24u128) & 0xf == (b >> 24u128) & 0xf,
                (a >> 28u128) & 0xf == (b >> 28u128) & 0xf,
                (a >> 32u128) & 0xf == (b >> 32u128) & 0xf,
                (a >> 36u128) & 0xf == (b >> 36u128) & 0xf,
                (a >> 40u128) & 0xf == (b >> 40u128) & 0xf,
                (a >> 44u128) & 0xf == (b >> 44u128) & 0xf,
                (a >> 48u128) & 0xf == (b >> 48u128) & 0xf,
                (a >> 52u128) & 0xf == (b >> 52u128) & 0xf,
                (a >> 56u128) & 0xf == (b >> 56u128) & 0xf,
                (a >> 60u128) & 0xf == (b >> 60u128) & 0xf,
                (a >> 64u128) & 0xf == (b >> 64u128) & 0xf,
                (a >> 68u128) & 0xf == (b >> 68u128) & 0xf,
                (a >> 72u128) & 0xf == (b >> 72u128) & 0xf,
                (a >> 76u128) & 0xf == (b >> 76u128) & 0xf,
                (a >> 80u128) & 0xf == (b >> 80u128) & 0xf,
                (a >> 84u128) & 0xf == (b >> 84u128) & 0xf,
                (a >> 88u128) & 0xf == (b >> 88u128) & 0xf,
                (a >> 92u128) & 0xf == (b >> 92u128) & 0xf,
                (a >> 96u128) & 0xf == (b >> 96u128) & 0xf,
                (a >> 100u128) & 0xf == (b >> 100u128) & 0xf,
                (a >> 104u128) & 0xf == (b >> 104u128) & 0xf,
                (a >> 108u128) & 0xf == (b >> 108u128) & 0xf,
                (a >> 112u128) & 0xf == (b >> 112u128) & 0xf,
                (a >> 116u128) & 0xf == (b >> 116u128) & 0xf,
                (a >> 120u128) & 0xf == (b >> 120u128) & 0xf,
                (a >> 124u128) & 0xf == (b >> 124u128) & 0xf,
        ;
    }
}

} // verus!
