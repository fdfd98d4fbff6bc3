//! The `repr(C)` layout rules, by which the VM lays out the structures it
//! shares with generated code, stated over field shapes (size and alignment in
//! bytes), with the facts about the machine word that the offset accessors
//! rely on.
use vstd::prelude::*;
use vstd::arithmetic::div_mod::{
    lemma_fundamental_div_mod,
    lemma_fundamental_div_mod_converse,
    lemma_mod_multiples_basic,
};
use vstd::layout::{size_of, align_of};

verus! {

/// Rounds `offset` up to the next multiple of `align` (an alignment of zero
/// leaves it unchanged).
pub open spec fn align_up(offset: nat, align: nat) -> nat {
    if align == 0 {
        offset
    } else {
        (((offset + align - 1) as nat) / align) * align
    }
}

/// The offset just past the last field when `fields` are placed one after
/// another, each at the first offset that meets its alignment.
pub open spec fn fields_end(fields: Seq<(nat, nat)>) -> nat
    decreases fields.len(),
{
    if fields.len() == 0 {
        0
    } else {
        align_up(fields_end(fields.drop_last()), fields.last().1) + fields.last().0
    }
}

/// Byte offset of field `i` of a `repr(C)` struct whose fields have the
/// given `(size, align)` shapes.
pub open spec fn field_offset(fields: Seq<(nat, nat)>, i: int) -> nat {
    align_up(fields_end(fields.take(i)), fields[i].1)
}

/// Alignment of a `repr(C)` struct: the largest alignment of its fields, and
/// one for a struct without fields.
pub open spec fn struct_align(fields: Seq<(nat, nat)>) -> nat
    decreases fields.len(),
{
    if fields.len() == 0 {
        1
    } else {
        let rest = struct_align(fields.drop_last());
        if rest >= fields.last().1 {
            rest
        } else {
            fields.last().1
        }
    }
}

/// Size of a `repr(C)` struct: the end of its last field, rounded up to the
/// struct's alignment.
pub open spec fn struct_size(fields: Seq<(nat, nat)>) -> nat {
    align_up(fields_end(fields), struct_align(fields))
}

/// Shape of a machine word: a `usize`, and equally any pointer to a sized type.
pub open spec fn word_shape() -> (nat, nat) {
    (size_of::<usize>(), align_of::<usize>())
}

/// A `repr(C)` struct made of `n` word-sized fields.
pub open spec fn word_fields(n: nat) -> Seq<(nat, nat)> {
    Seq::new(n, |_i: int| word_shape())
}

/// Shape of a `u32` field.
pub open spec fn u32_shape() -> (nat, nat) {
    (size_of::<u32>(), align_of::<u32>())
}

/// Shape of a `u64` field.
pub open spec fn u64_shape() -> (nat, nat) {
    (size_of::<u64>(), align_of::<u64>())
}

/// What the layout of the machine word is known to be: four or eight bytes,
/// aligned to a power of two that divides its size.
pub proof fn lemma_word_facts()
    ensures
        size_of::<usize>() == 4 || size_of::<usize>() == 8,
        0 < align_of::<usize>() <= size_of::<usize>(),
        size_of::<usize>() % align_of::<usize>() == 0,
        size_of::<u32>() == 4,
        0 < align_of::<u32>() <= 4,
        4nat % align_of::<u32>() == 0,
        size_of::<u64>() == 8,
        0 < align_of::<u64>() <= 8,
        8nat % align_of::<u64>() == 0,
{
    broadcast use vstd::layout::group_layout_axioms;

    assert(usize::BITS == 32 || usize::BITS == 64);
    let _ = align_of::<usize>();
    let _ = align_of::<u32>();
    let _ = align_of::<u64>();
    lemma_divisor_not_above(size_of::<usize>(), align_of::<usize>());
    lemma_divisor_not_above(4, align_of::<u32>());
    lemma_divisor_not_above(8, align_of::<u64>());
}

/// A positive number divisible by `d` is at least `d`.
proof fn lemma_divisor_not_above(x: nat, d: nat)
    requires
        x > 0,
        d > 0,
        x % d == 0,
    ensures
        d <= x,
{
    if d > x {
        lemma_fundamental_div_mod_converse(x as int, d as int, 0, x as int);
    }
}

/// Rounding an offset that is already a multiple of the alignment leaves it
/// unchanged.
pub proof fn lemma_align_up_aligned(offset: nat, align: nat)
    requires
        align > 0,
        offset % align == 0,
    ensures
        align_up(offset, align) == offset,
{
    let q = offset / align;
    lemma_fundamental_div_mod(offset as int, align as int);
    assert(offset == q * align) by (nonlinear_arith)
        requires
            offset == align * q + offset % align,
            offset % align == 0,
    ;
    lemma_fundamental_div_mod_converse(
        (offset + align - 1) as int,
        align as int,
        q as int,
        (align - 1) as int,
    );
}

/// `k` whole words are a multiple of the word's alignment.
pub proof fn lemma_words_aligned(k: nat)
    ensures
        (k * size_of::<usize>()) % align_of::<usize>() == 0,
{
    lemma_word_facts();
    let s = size_of::<usize>();
    let a = align_of::<usize>();
    lemma_fundamental_div_mod(s as int, a as int);
    let m = s / a;
    assert(k * s == (k * m) * a) by (nonlinear_arith)
        requires
            s == a * m + s % a,
            s % a == 0,
    ;
    lemma_mod_multiples_basic((k * m) as int, a as int);
}

/// In a struct of `n` words, field `i` starts `i` words in, the fields end
/// after `n` words, and the struct is aligned like a word.
pub proof fn lemma_word_fields_layout(n: nat)
    ensures
        fields_end(word_fields(n)) == n * size_of::<usize>(),
        n > 0 ==> struct_align(word_fields(n)) == align_of::<usize>(),
        forall|i: int|
            0 <= i < n ==> #[trigger] field_offset(word_fields(n), i) == i * size_of::<usize>(),
    decreases n,
{
    lemma_word_facts();
    if n > 0 {
        let prev = (n - 1) as nat;
        lemma_word_fields_layout(prev);
        assert(word_fields(n).drop_last() =~= word_fields(prev));
        assert(word_fields(n).last() == word_shape());
        assert(struct_align(word_fields(prev)) == 1 || struct_align(word_fields(prev))
            == align_of::<usize>());
        lemma_words_aligned(prev);
        lemma_align_up_aligned(prev * size_of::<usize>(), align_of::<usize>());
        assert(n * size_of::<usize>() == prev * size_of::<usize>() + size_of::<usize>())
            by (nonlinear_arith)
            requires
                prev + 1 == n,
        ;
        assert forall|i: int| 0 <= i < n implies #[trigger] field_offset(word_fields(n), i) == i
            * size_of::<usize>() by {
            if i < prev {
                assert(word_fields(n).take(i) =~= word_fields(prev).take(i));
                assert(field_offset(word_fields(prev), i) == i * size_of::<usize>());
            } else {
                assert(word_fields(n).take(i) =~= word_fields(prev));
                assert(i == prev);
            }
        }
    }
}

/// In a struct of `n > 0` words, the struct is exactly `n` words long.
pub proof fn lemma_word_struct_size(n: nat)
    requires
        n > 0,
    ensures
        struct_size(word_fields(n)) == n * size_of::<usize>(),
{
    lemma_word_fields_layout(n);
    lemma_words_aligned(n);
    lemma_word_facts();
    lemma_align_up_aligned(n * size_of::<usize>(), align_of::<usize>());
}

/// A struct holding one field of shape `shape`, whose size is a multiple of
/// its positive alignment, places it at offset zero and is exactly as large
/// and as aligned as the field.
pub proof fn lemma_single_field(shape: (nat, nat))
    requires
        shape.1 > 0,
        shape.0 % shape.1 == 0,
    ensures
        field_offset(seq![shape], 0) == 0,
        fields_end(seq![shape]) == shape.0,
        struct_align(seq![shape]) == shape.1,
        struct_size(seq![shape]) == shape.0,
{
    lemma_align_up_aligned(0, shape.1);
    lemma_align_up_aligned(shape.0, shape.1);
    assert(seq![shape].take(0) =~= Seq::<(nat, nat)>::empty());
    assert(seq![shape].drop_last() =~= Seq::<(nat, nat)>::empty());
    let one = seq![shape];
    let none = Seq::<(nat, nat)>::empty();
    assert(one.len() == 1);
    assert(one.last() == shape);
    assert(fields_end(none) == 0);
    assert(struct_align(none) == 1);
    assert(fields_end(one) == align_up(fields_end(none), shape.1) + shape.0);
    assert(fields_end(seq![shape]) == shape.0);
    assert(struct_align(seq![shape]) == shape.1);
}

/// Two words are a multiple of the alignment of a `u32`.
pub proof fn lemma_two_words_u32_aligned()
    ensures
        (2 * size_of::<usize>()) % align_of::<u32>() == 0,
{
    lemma_word_facts();
    let b = align_of::<u32>();
    if b == 3 {
        assert(4nat % 3nat == 1);
    }
    assert(b == 1 || b == 2 || b == 4);
    assert(8nat % 1nat == 0 && 8nat % 2nat == 0 && 8nat % 4nat == 0);
    assert(16nat % 1nat == 0 && 16nat % 2nat == 0 && 16nat % 4nat == 0);
}

/// Rounds `offset` up to a multiple of `align`, computed on machine integers.
pub(crate) fn align_up_usize(offset: usize, align: usize) -> (r: usize)
    requires
        align > 0,
        offset + align - 1 <= usize::MAX,
    ensures
        r == align_up(offset as nat, align as nat),
{
    let sum = offset + (align - 1);
    let q = sum / align;
    proof {
        lemma_fundamental_div_mod(sum as int, align as int);
        assert(q * align <= sum) by (nonlinear_arith)
            requires
                sum == align * q + sum % align,
                sum % align >= 0,
        ;
    }
    q * align
}

} // verus!
