use vstd::prelude::*;

verus! {

/// Bit `j` (0 = most significant) of an 8-bit character code.
pub open spec fn char_bit(c: char, j: int) -> bool {
    ((c as u32) >> ((7 - j) as u32)) & 1u32 == 1u32
}

/// The eight bits of a character's byte value, most significant first.
pub open spec fn char_bits(c: char) -> Seq<bool> {
    Seq::new(8, |j: int| char_bit(c, j))
}

/// The bits of a text: each character's eight bits, in character order.
pub open spec fn text_bits(s: Seq<char>) -> Seq<bool>
    decreases s.len(),
{
    if s.len() == 0 {
        seq![]
    } else {
        text_bits(s.drop_last()) + char_bits(s.last())
    }
}

/// Encoding yields eight bits per character.
pub proof fn lemma_text_bits_len(s: Seq<char>)
    ensures
        text_bits(s).len() == 8 * s.len(),
    decreases s.len(),
{
    if s.len() > 0 {
        lemma_text_bits_len(s.drop_last());
    }
}

/// Encoding a single character yields its byte value, most significant bit first.
pub proof fn lemma_single_char_bits(c: char)
    ensures
        text_bits(seq![c]) == char_bits(c),
{
    assert(seq![c].drop_last() =~= Seq::<char>::empty());
    assert(text_bits(Seq::<char>::empty()) + char_bits(c) =~= char_bits(c));
}

/// The empty text is ASCII, and encodes to no bits.
pub proof fn lemma_empty_text_bits()
    ensures
        vstd::utf8::is_ascii_chars(Seq::<char>::empty()),
        text_bits(Seq::<char>::empty()) == Seq::<bool>::empty(),
{
}

/// Encodes ASCII text as bits: eight per character, most significant bit first.
/// Text holding any non-ASCII character has no encoding.
pub fn text_to_binary(input: &str) -> (r: Option<Vec<bool>>)
    ensures
        r is Some <==> vstd::utf8::is_ascii_chars(input@),
        r is Some ==> r->0@ == text_bits(input@),
{
    if !input.is_ascii() {
        return None;
    }
    let n: usize = input.unicode_len();
    let mut result: Vec<bool> = Vec::new();
    let mut i: usize = 0;
    while i < n
        invariant
            n == input@.len(),
            i <= n,
            vstd::utf8::is_ascii_chars(input@),
            result@ == text_bits(input@.take(i as int)),
        decreases n - i,
    {
        let code: u8 = input.get_ascii(i);
        let ghost c = input@[i as int];
        assert(c as u32 == code as u32) by {
            vstd::utf8::is_ascii_chars_nat_bound(input@);
        }
        let ghost before = result@;
        let mut j: u32 = 0;
        while j < 8
            invariant
                j <= 8,
                c as u32 == code as u32,
                result@ == before + char_bits(c).take(j as int),
            decreases 8 - j,
        {
            let bit: bool = (1u8 << (7 - j) as u8) & code != 0;
            assert(bit == char_bit(c, j as int)) by {
                let k: u8 = (7 - j) as u8;
                assert(((1u8 << k) & code != 0) == ((code as u32 >> k as u32) & 1u32 == 1u32))
                    by (bit_vector)
                    requires
                        k < 8,
                ;
            }
            result.push(bit);
            assert(char_bits(c).take(j + 1) =~= char_bits(c).take(j as int).push(bit));
            j = j + 1;
        }
        assert(input@.take(i + 1).drop_last() =~= input@.take(i as int));
        assert(char_bits(c).take(8) =~= char_bits(c));
        i = i + 1;
    }
    assert(input@.take(n as int) =~= input@);
    Some(result)
}

} // verus!
