use crate::instruction::{decode, lemma_split_then_join, Instruction, InstructionType};
use vstd::prelude::*;

verus! {

/// Whether `w` decodes to anything but `Invalid`.
pub open spec fn is_valid_word(w: u16) -> bool {
    decode(w).family !is Invalid
}

/// How many of the words below `n` are valid.
pub open spec fn valid_words_below(n: nat) -> nat
    decreases n,
{
    if n == 0 {
        0
    } else {
        let rest = valid_words_below((n - 1) as nat);
        if n - 1 <= u16::MAX && is_valid_word((n - 1) as u16) {
            rest + 1
        } else {
            rest
        }
    }
}

/// Whether a low byte, which holds operation, load type and load size, can
/// belong to a valid word: it names either an operation or a load, and has
/// the size `QWord` unless it loads an immediate.
spec fn low_byte_fits(l: nat) -> bool {
    let names_operation = l % 16 != 15;
    let loads = l / 16 % 4 != 3;
    names_operation != loads && (l / 16 % 4 == 2 || l / 64 == 3)
}

/// Whether a high byte, which holds source and destination, can belong to a
/// valid word: the two differ.
spec fn high_byte_fits(h: nat) -> bool {
    h % 16 != h / 16
}

/// How many of the low bytes below `k` fit.
spec fn low_bytes_below(k: nat) -> nat
    decreases k,
{
    if k == 0 {
        0
    } else {
        low_bytes_below((k - 1) as nat) + if low_byte_fits((k - 1) as nat) {
            1nat
        } else {
            0nat
        }
    }
}

/// How many of the high bytes below `k` fit.
spec fn high_bytes_below(k: nat) -> nat
    decreases k,
{
    if k == 0 {
        0
    } else {
        high_bytes_below((k - 1) as nat) + if high_byte_fits((k - 1) as nat) {
            1nat
        } else {
            0nat
        }
    }
}

/// But for the reserved no-operation word, a word is valid exactly when both
/// of its bytes fit.
proof fn lemma_valid_by_bytes(w: u16)
    ensures
        is_valid_word(w) <==> w == 0xFFFF || (high_byte_fits(w as nat / 256) && low_byte_fits(
            w as nat % 256,
        )),
{
    lemma_split_then_join(w);
    assert(w % 16 == w % 256 % 16 && w / 16 % 4 == w % 256 / 16 % 4 && w / 64 % 4 == w % 256 / 64
        && w / 4096 == w / 256 / 16) by (bit_vector);
}

/// How many of the first `k` low bytes of row `j` fit, a row being the
/// sixteen bytes that share a load type and a load size. A row that names
/// no load holds fifteen operations; a row that names one holds the single
/// byte whose operation is `Nop`; a row with a size it may not have holds
/// nothing.
spec fn low_row_below(j: nat, k: nat) -> nat {
    if !(j % 4 == 2 || j / 4 == 3) {
        0
    } else if j % 4 == 3 {
        if k == 16 {
            15
        } else {
            k
        }
    } else if k == 16 {
        1
    } else {
        0
    }
}

proof fn lemma_low_row(j: nat, k: nat)
    requires
        j < 16,
        k <= 16,
    ensures
        low_bytes_below(16 * j + k) == low_bytes_below(16 * j) + low_row_below(j, k),
    decreases k,
{
    if k > 0 {
        lemma_low_row(j, (k - 1) as nat);
        let l = (16 * j + k - 1) as nat;
        assert(l % 16 == k - 1 && l / 16 == j && l / 64 == j / 4);
    }
}

proof fn lemma_low_bytes_total()
    ensures
        low_bytes_below(256) == 21,
{
    lemma_low_row(0, 16);
    lemma_low_row(1, 16);
    lemma_low_row(2, 16);
    lemma_low_row(3, 16);
    lemma_low_row(4, 16);
    lemma_low_row(5, 16);
    lemma_low_row(6, 16);
    lemma_low_row(7, 16);
    lemma_low_row(8, 16);
    lemma_low_row(9, 16);
    lemma_low_row(10, 16);
    lemma_low_row(11, 16);
    lemma_low_row(12, 16);
    lemma_low_row(13, 16);
    lemma_low_row(14, 16);
    lemma_low_row(15, 16);
}

/// Of the first `k` high bytes of a row, a row being the sixteen bytes that
/// share a destination, all fit but the one on the diagonal.
proof fn lemma_high_row(d: nat, k: nat)
    requires
        d < 16,
        k <= 16,
    ensures
        high_bytes_below(16 * d + k) == high_bytes_below(16 * d) + if k <= d {
            k
        } else {
            (k - 1) as nat
        },
    decreases k,
{
    if k > 0 {
        lemma_high_row(d, (k - 1) as nat);
        let h = (16 * d + k - 1) as nat;
        assert(h % 16 == k - 1 && h / 16 == d);
    }
}

proof fn lemma_high_rows(d: nat)
    requires
        d <= 16,
    ensures
        high_bytes_below(16 * d) == 15 * d,
    decreases d,
{
    if d > 0 {
        lemma_high_rows((d - 1) as nat);
        lemma_high_row((d - 1) as nat, 16);
    }
}

/// Within the block of words that share the high byte `h`, the valid words
/// are those whose low byte fits, if `h` fits at all. The reserved word
/// `0xFFFF` is left out.
proof fn lemma_block(h: nat, k: nat)
    requires
        h < 256,
        k <= 256,
        256 * h + k <= 0xFFFF,
    ensures
        valid_words_below(256 * h + k) == valid_words_below(256 * h) + if high_byte_fits(h) {
            low_bytes_below(k)
        } else {
            0
        },
    decreases k,
{
    if k > 0 {
        lemma_block(h, (k - 1) as nat);
        let w = (256 * h + k - 1) as u16;
        lemma_valid_by_bytes(w);
        assert(w as nat / 256 == h && w as nat % 256 == k - 1);
    }
}

/// Each block below the last holds as many valid words as low bytes fit,
/// or none.
proof fn lemma_blocks(h: nat)
    requires
        h <= 255,
    ensures
        valid_words_below(256 * h) == 21 * high_bytes_below(h),
    decreases h,
{
    if h > 0 {
        lemma_blocks((h - 1) as nat);
        lemma_block((h - 1) as nat, 256);
        lemma_low_bytes_total();
    }
}

/// The instruction set has 5041 valid words: 240 high bytes fit and 21 low
/// bytes, and the reserved no-operation word comes on top.
pub proof fn lemma_valid_word_count()
    ensures
        valid_words_below(0x1_0000) == 5041,
{
    lemma_blocks(255);
    lemma_block(255, 255);
    lemma_high_rows(15);
    lemma_high_row(15, 15);
    assert(is_valid_word(0xFFFF));
}

/// The valid words in increasing order: the table a consumer looks a word
/// up in, or walks to list the instruction set.
pub fn valid_words() -> (words: Vec<u16>)
    ensures
        words@.len() == 5041,
        forall|i: int, j: int| 0 <= i < j < words@.len() ==> words@[i] < words@[j],
        forall|w: u16| words@.contains(w) <==> is_valid_word(w),
{
    let mut words: Vec<u16> = Vec::new();
    let mut next: u32 = 0;
    while next <= 0xFFFF
        invariant
            next <= 0x1_0000,
            words@.len() == valid_words_below(next as nat),
            forall|i: int, j: int| 0 <= i < j < words@.len() ==> words@[i] < words@[j],
            forall|i: int| 0 <= i < words@.len() ==> words@[i] < next && is_valid_word(words@[i]),
            forall|w: u16| w < next && is_valid_word(w) ==> words@.contains(w),
        decreases 0x1_0000 - next,
    {
        let word: u16 = next as u16;
        let ghost before = words@;
        if Instruction::parse_instruction(word).family() != InstructionType::Invalid {
            words.push(word);
            assert(words@[before.len() as int] == word);
        }
        assert forall|w: u16| w < next + 1 && is_valid_word(w) implies words@.contains(w) by {
            if w < next {
                let i = choose|i: int| 0 <= i < before.len() && before[i] == w;
                assert(words@[i] == w);
            }
        }
        next += 1;
    }
    proof {
        lemma_valid_word_count();
    }
    words
}

} // verus!
