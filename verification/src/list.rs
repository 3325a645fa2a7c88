//! The packed list of specifiers that the native API hands out.
//!
//! A list is a run of strings, each closed by one zero byte, and closed as a
//! whole by one more zero byte: the first two zero bytes in a row end it.

use vstd::prelude::*;
use crate::error::AlcResult;

verus! {

/// Two zero bytes in a row stand at `at` in `buffer`.
pub open spec fn terminator_at(buffer: Seq<u8>, at: int) -> bool {
    0 <= at && at + 1 < buffer.len() && buffer[at] == 0 && buffer[at + 1] == 0
}

/// `buffer` holds two zero bytes in a row.
pub open spec fn terminated(buffer: Seq<u8>) -> bool {
    exists|at: int| terminator_at(buffer, at)
}

/// The first two zero bytes in a row of `buffer` stand at `at`.
pub open spec fn first_terminator_at(buffer: Seq<u8>, at: int) -> bool {
    terminator_at(buffer, at) && forall|before: int|
        0 <= before < at ==> !terminator_at(buffer, before)
}

/// The number of bytes of `buffer` before its first two zero bytes in a row.
pub open spec fn run_length(buffer: Seq<u8>) -> int {
    choose|at: int| first_terminator_at(buffer, at)
}

/// The bytes of `buffer` before its first two zero bytes in a row.
pub open spec fn run(buffer: Seq<u8>) -> Seq<u8> {
    buffer.take(run_length(buffer))
}

/// `bytes` cut at each of its zero bytes. The pieces hold no zero byte, and
/// there is one piece more than `bytes` has zero bytes.
pub open spec fn split_at_zeros(bytes: Seq<u8>) -> Seq<Seq<u8>>
    decreases bytes.len(),
{
    if bytes.len() == 0 {
        seq![Seq::<u8>::empty()]
    } else {
        let before = split_at_zeros(bytes.drop_last());
        if bytes.last() == 0 {
            before.push(Seq::<u8>::empty())
        } else {
            before.drop_last().push(before.last().push(bytes.last()))
        }
    }
}

/// The specifiers that a run holds: none for an empty run, else the run cut
/// at each of its zero bytes.
pub open spec fn specifiers(run: Seq<u8>) -> Seq<Seq<u8>> {
    if run.len() == 0 {
        Seq::<Seq<u8>>::empty()
    } else {
        split_at_zeros(run)
    }
}

/// `strings` in a row with one zero byte between each two of them.
pub open spec fn joined(strings: Seq<Seq<u8>>) -> Seq<u8>
    decreases strings.len(),
{
    if strings.len() == 0 {
        Seq::<u8>::empty()
    } else if strings.len() == 1 {
        strings[0]
    } else {
        joined(strings.drop_last()) + seq![0u8] + strings.last()
    }
}

/// The packed list of `strings`: one zero byte between each two of them, and
/// two zero bytes at the end.
pub open spec fn packed(strings: Seq<Seq<u8>>) -> Seq<u8> {
    joined(strings) + seq![0u8, 0u8]
}

/// `bytes` holds no zero byte.
pub open spec fn zero_free(bytes: Seq<u8>) -> bool {
    forall|i: int| 0 <= i < bytes.len() ==> bytes[i] != 0
}

/// The first terminator of a buffer is where `run_length` says, and nowhere
/// else.
pub proof fn lemma_run_length(buffer: Seq<u8>, at: int)
    requires
        first_terminator_at(buffer, at),
    ensures
        run_length(buffer) == at,
{
    let chosen = run_length(buffer);
    assert(first_terminator_at(buffer, chosen));
    if chosen < at {
        assert(!terminator_at(buffer, chosen));
    }
    if at < chosen {
        assert(!terminator_at(buffer, at));
    }
}

/// A terminated buffer has a first terminator.
pub proof fn lemma_run_length_of_terminated(buffer: Seq<u8>)
    requires
        terminated(buffer),
    ensures
        first_terminator_at(buffer, run_length(buffer)),
{
    let some = choose|at: int| terminator_at(buffer, at);
    lemma_first_terminator_upto(buffer, some);
}

proof fn lemma_first_terminator_upto(buffer: Seq<u8>, bound: int)
    requires
        terminator_at(buffer, bound),
    ensures
        exists|at: int| first_terminator_at(buffer, at),
    decreases bound,
{
    if exists|before: int| 0 <= before < bound && terminator_at(buffer, before) {
        let before = choose|before: int| 0 <= before < bound && terminator_at(buffer, before);
        lemma_first_terminator_upto(buffer, before);
    } else {
        assert(first_terminator_at(buffer, bound));
    }
}

/// Cutting never gives nothing, and no piece holds a zero byte.
pub proof fn lemma_split_pieces(bytes: Seq<u8>)
    ensures
        split_at_zeros(bytes).len() >= 1,
        forall|k: int|
            0 <= k < split_at_zeros(bytes).len() ==> zero_free(#[trigger] split_at_zeros(bytes)[k]),
    decreases bytes.len(),
{
    if bytes.len() > 0 {
        lemma_split_pieces(bytes.drop_last());
    }
}

/// Joining the pieces of a cut gives back what was cut.
pub proof fn lemma_joined_split(bytes: Seq<u8>)
    ensures
        joined(split_at_zeros(bytes)) == bytes,
    decreases bytes.len(),
{
    if bytes.len() > 0 {
        let init = bytes.drop_last();
        let before = split_at_zeros(init);
        lemma_joined_split(init);
        lemma_split_pieces(init);
        if bytes.last() == 0 {
            let pieces = before.push(Seq::<u8>::empty());
            assert(pieces.drop_last() =~= before);
            assert(joined(pieces) =~= init + seq![0u8]);
            assert(init + seq![0u8] =~= bytes);
        } else {
            let grown = before.last().push(bytes.last());
            let pieces = before.drop_last().push(grown);
            if before.len() == 1 {
                assert(joined(pieces) =~= init.push(bytes.last()));
            } else {
                assert(pieces.drop_last() =~= before.drop_last());
                assert(joined(pieces) =~= joined(before).push(bytes.last()));
            }
            assert(init.push(bytes.last()) =~= bytes);
        }
    }
}

/// Bytes without a zero byte are one piece.
pub proof fn lemma_split_zero_free(bytes: Seq<u8>)
    requires
        zero_free(bytes),
    ensures
        split_at_zeros(bytes) == seq![bytes],
    decreases bytes.len(),
{
    if bytes.len() == 0 {
        assert(bytes =~= Seq::<u8>::empty());
    } else {
        let init = bytes.drop_last();
        lemma_split_zero_free(init);
        assert(init.push(bytes.last()) =~= bytes);
        assert(seq![init].drop_last().push(bytes) =~= seq![bytes]);
    }
}

/// Says whether `buffer` holds two zero bytes in a row, so that it can be
/// read as a packed list.
pub fn is_terminated(buffer: &[u8]) -> (found: bool)
    ensures
        found == terminated(buffer@),
{
    if buffer.len() < 2 {
        assert(forall|at: int| !terminator_at(buffer@, at));
        return false;
    }
    let mut i: usize = 0;
    while i + 1 < buffer.len()
        invariant
            2 <= buffer.len(),
            i + 1 <= buffer.len(),
            forall|before: int| 0 <= before < i ==> !terminator_at(buffer@, before),
        decreases buffer.len() - i,
    {
        if buffer[i] == 0 && buffer[i + 1] == 0 {
            assert(terminator_at(buffer@, i as int));
            return true;
        }
        i += 1;
    }
    assert(forall|at: int| !terminator_at(buffer@, at));
    false
}

/// Reads the packed list in `spec`. Where the step before reading failed,
/// nothing is read and that error is the result. Else the result is the
/// specifiers of the list, in their order; what follows the end of the list
/// in `spec` is not looked at.
pub fn parse_enum_spec(prior: AlcResult<()>, spec: &[u8]) -> (r: AlcResult<Vec<Vec<u8>>>)
    requires
        prior is Ok ==> terminated(spec@),
    ensures
        prior matches Err(e) ==> (r matches Err(f) && f == e),
        prior is Ok ==> (r matches Ok(strings) && strings.deep_view() == specifiers(run(spec@))),
        r matches Ok(strings) ==> forall|k: int|
            0 <= k < strings.len() ==> zero_free(#[trigger] strings[k]@),
{
    if let Err(e) = prior {
        return Err(e);
    }
    let mut specs: Vec<Vec<u8>> = Vec::new();
    let mut current: Vec<u8> = Vec::new();
    let mut i: usize = 0;
    proof {
        lemma_run_length_of_terminated(spec@);
        assert(spec@.take(0) =~= Seq::<u8>::empty());
        assert(specs.deep_view().push(current@) =~= seq![Seq::<u8>::empty()]);
    }
    while !(spec[i] == 0 && spec[i + 1] == 0)
        invariant
            first_terminator_at(spec@, run_length(spec@)),
            i <= run_length(spec@),
            specs.deep_view().push(current@) == split_at_zeros(spec@.take(i as int)),
        decreases run_length(spec@) - i,
    {
        let ghost before = specs.deep_view();
        let ghost piece = current@;
        let byte = spec[i];
        proof {
            assert(spec@.take(i + 1).drop_last() =~= spec@.take(i as int));
            assert(spec@.take(i + 1).last() == byte);
            if i == run_length(spec@) {
                assert(terminator_at(spec@, i as int));
            }
        }
        if byte == 0 {
            specs.push(current);
            current = Vec::new();
            proof {
                assert(specs.deep_view() =~= before.push(piece)) by {
                    lemma_bytes_deep_view(specs@.last());
                }
            }
        } else {
            current.push(byte);
            proof {
                assert(before.push(piece).drop_last() =~= before);
            }
        }
        i += 1;
    }
    proof {
        assert(terminator_at(spec@, i as int));
        assert(i == run_length(spec@));
        assert(spec@.take(i as int) == run(spec@));
    }
    if i > 0 {
        let ghost before = specs.deep_view();
        let ghost piece = current@;
        specs.push(current);
        proof {
            assert(specs.deep_view() =~= before.push(piece)) by {
                lemma_bytes_deep_view(specs@.last());
            }
        }
    } else {
        proof {
            assert(specs.deep_view() =~= Seq::<Seq<u8>>::empty());
        }
    }
    proof {
        lemma_split_pieces(run(spec@));
        assert forall|k: int| 0 <= k < specs.len() implies zero_free(#[trigger] specs[k]@) by {
            lemma_bytes_deep_view(specs[k]);
            assert(specs.deep_view()[k] == specs[k]@);
        }
    }
    Ok(specs)
}

proof fn lemma_bytes_deep_view(bytes: Vec<u8>)
    ensures
        bytes.deep_view() == bytes@,
{
    assert(bytes.deep_view() =~= bytes@);
}

/// Reading a packed list and packing what was read gives back the list, up
/// to its terminator and with it. A buffer that ends with its terminator
/// comes back whole.
pub proof fn lemma_parse_then_pack(buffer: Seq<u8>)
    requires
        terminated(buffer),
    ensures
        packed(specifiers(run(buffer))) == buffer.take(run_length(buffer) + 2),
        run_length(buffer) + 2 == buffer.len() ==> packed(specifiers(run(buffer))) == buffer,
{
    lemma_run_length_of_terminated(buffer);
    let length = run_length(buffer);
    lemma_joined_split(run(buffer));
    assert(joined(specifiers(run(buffer))) == run(buffer));
    assert(run(buffer) + seq![0u8, 0u8] =~= buffer.take(length + 2));
    if length + 2 == buffer.len() {
        assert(buffer.take(length + 2) =~= buffer);
    }
}

/// A buffer that begins with two zero bytes holds the empty list.
pub proof fn lemma_empty_list(buffer: Seq<u8>)
    requires
        terminator_at(buffer, 0),
    ensures
        specifiers(run(buffer)) == Seq::<Seq<u8>>::empty(),
{
    lemma_run_length(buffer, 0);
}

/// One string that is not empty and holds no zero byte, followed by two zero
/// bytes, is the list of that string alone.
pub proof fn lemma_single_specifier(string: Seq<u8>)
    requires
        string.len() > 0,
        zero_free(string),
    ensures
        specifiers(run(string + seq![0u8, 0u8])) == seq![string],
{
    let buffer = string + seq![0u8, 0u8];
    assert(first_terminator_at(buffer, string.len() as int)) by {
        assert forall|before: int| 0 <= before < string.len() implies !terminator_at(
            buffer,
            before,
        ) by {
            assert(buffer[before] == string[before]);
        }
    }
    lemma_run_length(buffer, string.len() as int);
    assert(run(buffer) =~= string);
    lemma_split_zero_free(string);
}

/// Bytes without a zero byte, put behind other bytes, lengthen the last piece
/// of the cut and leave the pieces before it as they are.
pub proof fn lemma_split_append(bytes: Seq<u8>, more: Seq<u8>)
    requires
        zero_free(more),
    ensures
        split_at_zeros(bytes + more) == split_at_zeros(bytes).drop_last().push(
            split_at_zeros(bytes).last() + more,
        ),
    decreases more.len(),
{
    lemma_split_pieces(bytes);
    let pieces = split_at_zeros(bytes);
    if more.len() == 0 {
        assert(bytes + more =~= bytes);
        assert(pieces.last() + more =~= pieces.last());
        assert(pieces.drop_last().push(pieces.last()) =~= pieces);
    } else {
        let init = more.drop_last();
        lemma_split_append(bytes, init);
        assert((bytes + more).drop_last() =~= bytes + init);
        let grown = pieces.drop_last().push(pieces.last() + init);
        assert(grown.drop_last() =~= pieces.drop_last());
        assert((pieces.last() + init).push(more.last()) =~= pieces.last() + more);
    }
}

/// Cutting a row of strings that hold no zero byte gives the strings back.
pub proof fn lemma_split_joined(strings: Seq<Seq<u8>>)
    requires
        strings.len() >= 1,
        forall|k: int| 0 <= k < strings.len() ==> zero_free(#[trigger] strings[k]),
    ensures
        split_at_zeros(joined(strings)) == strings,
    decreases strings.len(),
{
    if strings.len() == 1 {
        lemma_split_zero_free(strings[0]);
        assert(seq![strings[0]] =~= strings);
    } else {
        let init = strings.drop_last();
        lemma_split_joined(init);
        let closed = joined(init) + seq![0u8];
        assert(closed.drop_last() =~= joined(init));
        assert(split_at_zeros(closed) == init.push(Seq::<u8>::empty()));
        lemma_split_append(closed, strings.last());
        assert(init.push(Seq::<u8>::empty()).drop_last() =~= init);
        assert(Seq::<u8>::empty() + strings.last() =~= strings.last());
        assert(init.push(strings.last()) =~= strings);
    }
}

/// A row of strings that are not empty and hold no zero byte is not empty,
/// does not end with a zero byte, and holds no two zero bytes in a row.
pub proof fn lemma_joined_holds_no_terminator(strings: Seq<Seq<u8>>)
    requires
        strings.len() >= 1,
        forall|k: int|
            0 <= k < strings.len() ==> (#[trigger] strings[k]).len() > 0 && zero_free(strings[k]),
    ensures
        joined(strings).len() > 0,
        joined(strings).last() != 0,
        forall|at: int| !terminator_at(joined(strings), at),
    decreases strings.len(),
{
    if strings.len() > 1 {
        let init = strings.drop_last();
        let last = strings.last();
        lemma_joined_holds_no_terminator(init);
        let row = joined(strings);
        let before = joined(init);
        assert(row =~= before + seq![0u8] + last);
        assert forall|at: int| !terminator_at(row, at) by {
            if 0 <= at && at + 1 < row.len() {
                if at + 1 < before.len() {
                    assert(!terminator_at(before, at));
                    assert(row[at] == before[at] && row[at + 1] == before[at + 1]);
                } else if at + 1 == before.len() {
                    assert(row[at] == before.last());
                } else {
                    assert(row[at + 1] == last[at - before.len()]);
                }
            }
        }
        assert(row.last() == last.last());
    }
}

/// Packing strings that are not empty and hold no zero byte, and reading the
/// packed list, gives the strings back.
pub proof fn lemma_pack_then_parse(strings: Seq<Seq<u8>>)
    requires
        forall|k: int|
            0 <= k < strings.len() ==> (#[trigger] strings[k]).len() > 0 && zero_free(strings[k]),
    ensures
        terminated(packed(strings)),
        specifiers(run(packed(strings))) == strings,
{
    let row = joined(strings);
    let buffer = packed(strings);
    if strings.len() == 0 {
        assert(terminator_at(buffer, 0));
        lemma_empty_list(buffer);
        assert(strings =~= Seq::<Seq<u8>>::empty());
    } else {
        lemma_joined_holds_no_terminator(strings);
        let end = row.len() as int;
        assert(terminator_at(buffer, end));
        assert forall|before: int| 0 <= before < end implies !terminator_at(buffer, before) by {
            if before + 1 < end {
                assert(!terminator_at(row, before));
                assert(buffer[before] == row[before] && buffer[before + 1] == row[before + 1]);
            } else {
                assert(buffer[before] == row.last());
            }
        }
        lemma_run_length(buffer, end);
        assert(run(buffer) =~= row);
        lemma_split_joined(strings);
    }
}

} // verus!
