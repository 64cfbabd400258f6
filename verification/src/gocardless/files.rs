//! The content of a file of lines: one record to a line.

use vstd::prelude::*;

verus! {

/// The byte that ends a line.
pub const LINE_END: u8 = 0x0a;

/// The content of a file of lines: every record, in order, each followed by
/// the end of a line.
pub open spec fn lines_of(records: Seq<Seq<u8>>) -> Seq<u8>
    decreases records.len(),
{
    if records.len() == 0 {
        Seq::empty()
    } else {
        lines_of(records.drop_last()) + records.last() + seq![LINE_END]
    }
}

/// The records of a list of byte strings.
pub open spec fn records_of(records: Seq<Vec<u8>>) -> Seq<Seq<u8>> {
    records.map_values(|r: Vec<u8>| r@)
}

/// How often the end of a line occurs in `bytes`.
pub open spec fn line_ends(bytes: Seq<u8>) -> nat
    decreases bytes.len(),
{
    if bytes.len() == 0 {
        0
    } else {
        line_ends(bytes.drop_last()) + if bytes.last() == LINE_END {
            1nat
        } else {
            0nat
        }
    }
}

/// Whether no record holds the end of a line.
pub open spec fn single_lines(records: Seq<Seq<u8>>) -> bool {
    forall|i: int| 0 <= i < records.len() ==> line_ends(#[trigger] records[i]) == 0
}

/// The content of a file of lines for `records`, each of them the bytes of
/// one serialised value.
pub fn write_json_lines(records: &Vec<Vec<u8>>) -> (r: Vec<u8>)
    ensures
        r@ == lines_of(records_of(records@)),
{
    let mut out: Vec<u8> = Vec::new();
    let mut i: usize = 0;
    assert(records_of(records@).take(0) =~= Seq::<Seq<u8>>::empty());
    while i < records.len()
        invariant
            i <= records.len(),
            out@ == lines_of(records_of(records@).take(i as int)),
        decreases records.len() - i,
    {
        let record = &records[i];
        let ghost before = out@;
        let mut j: usize = 0;
        while j < record.len()
            invariant
                j <= record.len(),
                out@ == before + record@.take(j as int),
            decreases record.len() - j,
        {
            out.push(record[j]);
            assert(out@ =~= before + record@.take(j + 1));
            j += 1;
        }
        out.push(LINE_END);
        proof {
            let all = records_of(records@);
            assert(record@.take(record.len() as int) =~= record@);
            assert(all.take(i + 1).drop_last() =~= all.take(i as int));
            assert(all.take(i + 1).last() == record@);
            assert(out@ =~= lines_of(all.take(i as int)) + record@ + seq![LINE_END]);
        }
        i += 1;
    }
    assert(records_of(records@).take(records.len() as int) =~= records_of(records@));
    out
}

/// Counting the ends of lines goes through concatenation.
pub proof fn line_ends_add(a: Seq<u8>, b: Seq<u8>)
    ensures
        line_ends(a + b) == line_ends(a) + line_ends(b),
    decreases b.len(),
{
    if b.len() == 0 {
        assert(a + b =~= a);
    } else {
        line_ends_add(a, b.drop_last());
        assert((a + b).drop_last() =~= a + b.drop_last());
        assert((a + b).last() == b.last());
    }
}

/// Where no record holds the end of a line, the file has as many lines as
/// there are records.
pub proof fn one_line_per_record(records: Seq<Seq<u8>>)
    requires
        single_lines(records),
    ensures
        line_ends(lines_of(records)) == records.len(),
    decreases records.len(),
{
    if records.len() > 0 {
        let front = records.drop_last();
        assert forall|i: int| 0 <= i < front.len() implies line_ends(#[trigger] front[i]) == 0 by {
            assert(front[i] == records[i]);
        }
        one_line_per_record(front);
        line_ends_add(lines_of(front) + records.last(), seq![LINE_END]);
        line_ends_add(lines_of(front), records.last());
        assert(seq![LINE_END].drop_last() =~= Seq::<u8>::empty());
        assert(line_ends(seq![LINE_END]) == 1) by {
            assert(seq![LINE_END].last() == LINE_END);
            assert(line_ends(Seq::<u8>::empty()) == 0);
        }
    }
}

} // verus!
