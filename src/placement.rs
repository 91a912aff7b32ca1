//! The piece-placement field of a FEN record, read into 64 sprite keys.
//!
//! A slot is the key of one square: empty for an empty square, otherwise the
//! piece's letter. Slots come in FEN order: rank 8 first, file a first.
use vstd::prelude::*;

verus! {

/// Whether `c` separates the fields of a FEN record.
pub open spec fn is_field_sep(c: char) -> bool {
    c == ' ' || c == '\t' || c == '\n' || c == '\r'
}

/// Whether `c` stands for a run of empty squares (`1` to `8`).
pub open spec fn is_gap_digit(c: char) -> bool {
    '1' <= c && c <= '8'
}

/// Number of characters before the first field separator.
pub open spec fn field_len(t: Seq<char>) -> nat
    decreases t.len(),
{
    if t.len() == 0 || is_field_sep(t[0]) {
        0
    } else {
        1 + field_len(t.drop_first())
    }
}

/// The slots that one placement character stands for: none for the rank
/// separator `/`, a run of empty keys for a digit, else one key of that letter.
pub open spec fn char_slots(c: char) -> Seq<Seq<char>> {
    if c == '/' {
        Seq::empty()
    } else if is_gap_digit(c) {
        Seq::new((c as u32 - '0' as u32) as nat, |i: int| Seq::<char>::empty())
    } else {
        seq![seq![c]]
    }
}

/// The slots of a placement text, character by character.
pub open spec fn expand(s: Seq<char>) -> Seq<Seq<char>>
    decreases s.len(),
{
    if s.len() == 0 {
        Seq::empty()
    } else {
        expand(s.drop_last()) + char_slots(s.last())
    }
}

/// The first field of a FEN record: the piece placement.
pub open spec fn placement_field(fen: Seq<char>) -> Seq<char> {
    fen.take(field_len(fen) as int)
}

/// The slots of the first field of a FEN record.
pub open spec fn placement_slots(fen: Seq<char>) -> Seq<Seq<char>> {
    expand(placement_field(fen))
}

/// Number of characters of a placement text that stand for a piece.
pub open spec fn piece_letters(s: Seq<char>) -> nat
    decreases s.len(),
{
    if s.len() == 0 {
        0
    } else {
        piece_letters(s.drop_last()) + if s.last() == '/' || is_gap_digit(s.last()) {
            0nat
        } else {
            1nat
        }
    }
}

/// Number of non-empty keys.
pub open spec fn filled(s: Seq<Seq<char>>) -> nat
    decreases s.len(),
{
    if s.len() == 0 {
        0
    } else {
        filled(s.drop_last()) + if s.last().len() > 0 {
            1nat
        } else {
            0nat
        }
    }
}

pub proof fn lemma_filled_concat(a: Seq<Seq<char>>, b: Seq<Seq<char>>)
    ensures
        filled(a + b) == filled(a) + filled(b),
    decreases b.len(),
{
    if b.len() > 0 {
        assert((a + b).drop_last() =~= a + b.drop_last());
        lemma_filled_concat(a, b.drop_last());
    } else {
        assert(a + b =~= a);
    }
}

proof fn lemma_filled_no_keys(n: nat)
    ensures
        filled(Seq::new(n, |i: int| Seq::<char>::empty())) == 0,
    decreases n,
{
    if n > 0 {
        assert(Seq::new(n, |i: int| Seq::<char>::empty()).drop_last() =~= Seq::new(
            (n - 1) as nat,
            |i: int| Seq::<char>::empty(),
        ));
        lemma_filled_no_keys((n - 1) as nat);
    }
}

/// Each piece letter of a placement text gives exactly one non-empty key.
pub proof fn lemma_filled_expand(s: Seq<char>)
    ensures
        filled(expand(s)) == piece_letters(s),
    decreases s.len(),
{
    if s.len() > 0 {
        let c = s.last();
        assert(expand(s) == expand(s.drop_last()) + char_slots(c));
        lemma_filled_expand(s.drop_last());
        lemma_filled_concat(expand(s.drop_last()), char_slots(c));
        if c == '/' {
            assert(filled(char_slots(c)) == 0);
        } else if is_gap_digit(c) {
            lemma_filled_no_keys((c as u32 - '0' as u32) as nat);
        } else {
            let one: Seq<Seq<char>> = seq![seq![c]];
            assert(one.drop_last() =~= Seq::<Seq<char>>::empty());
            assert(one.last().len() > 0);
            assert(filled(one.drop_last()) == 0);
            assert(filled(one) == 1);
        }
    }
}

/// Reversing the keys keeps how many are filled.
pub proof fn lemma_filled_reverse(s: Seq<Seq<char>>)
    ensures
        filled(s.reverse()) == filled(s),
    decreases s.len(),
{
    if s.len() > 0 {
        let rest = s.drop_last();
        assert(s.reverse() =~= seq![s.last()] + rest.reverse());
        lemma_filled_reverse(rest);
        lemma_filled_concat(seq![s.last()], rest.reverse());
        let one: Seq<Seq<char>> = seq![s.last()];
        assert(one.drop_last() =~= Seq::<Seq<char>>::empty());
        assert(filled(one) == filled(Seq::<Seq<char>>::empty()) + if s.last().len() > 0 {
            1nat
        } else {
            0nat
        });
    }
}

/// Relies on `String`'s `From<char>`: the string of that one character.
#[verifier::external_body]
fn key_of(c: char) -> (r: String)
    ensures
        r@ == seq![c],
{
    String::from(c)
}

fn is_sep_char(c: char) -> (r: bool)
    ensures
        r == is_field_sep(c),
{
    c == ' ' || c == '\t' || c == '\n' || c == '\r'
}

/// Reads the placement field of a FEN record into its slots; `None` when
/// they are not exactly 64.
pub fn parse_placement(fen: &Vec<char>) -> (r: Option<Vec<String>>)
    ensures
        match r {
            Some(v) => {
                &&& placement_slots(fen@).len() == 64
                &&& v@.len() == 64
                &&& forall|j: int| 0 <= j < 64 ==> (#[trigger] v@[j])@ == placement_slots(fen@)[j]
            },
            None => placement_slots(fen@).len() != 64,
        },
{
    let mut out: Vec<String> = Vec::new();
    let mut i: usize = 0;
    assert(fen@.subrange(0, fen@.len() as int) =~= fen@);
    assert(fen@.take(0) =~= Seq::<char>::empty());
    while i < fen.len() && !is_sep_char(fen[i])
        invariant
            i <= fen.len(),
            field_len(fen@) == i + field_len(fen@.subrange(i as int, fen@.len() as int)),
            out@.len() == expand(fen@.take(i as int)).len(),
            forall|j: int|
                0 <= j < out@.len() ==> (#[trigger] out@[j])@ == expand(fen@.take(i as int))[j],
        decreases fen.len() - i,
    {
        let c = fen[i];
        let ghost before = out@;
        if c == '/' {
        } else if '1' <= c && c <= '8' {
            let n: u32 = c as u32 - '0' as u32;
            let mut k: u32 = 0;
            while k < n
                invariant
                    k <= n,
                    out@.len() == before.len() + k,
                    forall|j: int| 0 <= j < before.len() ==> (#[trigger] out@[j]) == before[j],
                    forall|j: int|
                        before.len() <= j < out@.len() ==> (#[trigger] out@[j])@ == Seq::<
                            char,
                        >::empty(),
                decreases n - k,
            {
                out.push(String::new());
                k = k + 1;
            }
        } else {
            out.push(key_of(c));
        }
        proof {
            let rest = fen@.subrange(i as int, fen@.len() as int);
            assert(rest.drop_first() =~= fen@.subrange(i + 1, fen@.len() as int));
            assert(fen@.take(i + 1).drop_last() =~= fen@.take(i as int));
            assert(expand(fen@.take(i + 1)) == expand(fen@.take(i as int)) + char_slots(c));
        }
        i = i + 1;
    }
    proof {
        assert(field_len(fen@.subrange(i as int, fen@.len() as int)) == 0);
    }
    if out.len() == 64 {
        Some(out)
    } else {
        None
    }
}

} // verus!
