use vstd::prelude::*;

verus! {

/// Size in bytes of every feature report sent to a keyboard.
pub const BUFFER_SIZE: usize = 65;

/// Report selector written in byte 0 of every report.
pub const REPORT_ID: u8 = 0x0a;

/// Bytes before the first table entry: report id, command, chunk number, entry count.
pub const HEADER_LEN: usize = 4;

/// The most reports one table may be split into (the chunk number is one byte).
pub const MAX_CHUNKS: usize = 256;

/// `n` zero bytes.
pub open spec fn zeros(n: nat) -> Seq<u8> {
    Seq::new(n, |_i: int| 0u8)
}

/// A payload filled up with zero bytes to the report size.
pub open spec fn pad(s: Seq<u8>) -> Seq<u8> {
    s + zeros((BUFFER_SIZE - s.len()) as nat)
}

/// The entries of a table laid end to end.
pub open spec fn flat(s: Seq<Seq<u8>>) -> Seq<u8>
    decreases s.len(),
{
    if s.len() == 0 {
        Seq::empty()
    } else {
        flat(s.drop_last()) + s.last()
    }
}

/// How many reports a table of `n` entries takes at `per` entries a report;
/// an empty table still takes one.
pub open spec fn chunk_count(n: nat, per: nat) -> nat {
    if n == 0 || per == 0 {
        1
    } else {
        ((n + per - 1) as int / per as int) as nat
    }
}

/// The entries that report `j` of a table carries.
pub open spec fn chunk(entries: Seq<Seq<u8>>, per: nat, j: int) -> Seq<Seq<u8>> {
    let start = j * per;
    let end = if start + per <= entries.len() { start + per } else { entries.len() as int };
    entries.subrange(start, end)
}

/// One report of a table: header, the chunk's entries, then zeros.
pub open spec fn table_report(cmd: u8, j: int, part: Seq<Seq<u8>>) -> Seq<u8> {
    pad(seq![REPORT_ID, cmd, j as u8, part.len() as u8] + flat(part))
}

/// A whole table, split in order into reports of `per` entries.
pub open spec fn table_reports(cmd: u8, entries: Seq<Seq<u8>>, per: nat) -> Seq<Seq<u8>> {
    Seq::new(
        chunk_count(entries.len(), per),
        |j: int| table_report(cmd, j, chunk(entries, per, j)),
    )
}

/// Every entry of a table has the same width.
pub open spec fn entries_of_width(entries: Seq<Seq<u8>>, width: nat) -> bool {
    forall|i: int| 0 <= i < entries.len() ==> #[trigger] entries[i].len() == width
}

pub proof fn lemma_flat_len(s: Seq<Seq<u8>>, width: nat)
    requires
        entries_of_width(s, width),
    ensures
        flat(s).len() == s.len() * width,
    decreases s.len(),
{
    if s.len() > 0 {
        assert(entries_of_width(s.drop_last(), width));
        lemma_flat_len(s.drop_last(), width);
        assert((s.len() - 1) * width + width == s.len() * width) by (nonlinear_arith);
    }
}

/// Fills a payload up with zero bytes to the report size.
pub fn pad_report(v: Vec<u8>) -> (r: Vec<u8>)
    requires
        v.len() <= BUFFER_SIZE,
    ensures
        r@ == pad(v@),
{
    let ghost body = v@;
    let mut v = v;
    while v.len() < BUFFER_SIZE
        invariant
            body.len() <= v.len() <= BUFFER_SIZE,
            v@ == body + zeros((v.len() - body.len()) as nat),
        decreases BUFFER_SIZE - v.len(),
    {
        v.push(0u8);
        assert(v@ =~= body + zeros((v.len() - body.len()) as nat));
    }
    v
}

/// Builds one report of a table from `entries[start..end]`.
fn build_table_report(cmd: u8, j: u8, entries: &Vec<Vec<u8>>, start: usize, end: usize, width: usize) -> (r: Vec<u8>)
    requires
        start <= end <= entries.len(),
        entries_of_width(entries.deep_view(), width as nat),
        HEADER_LEN + (end - start) * width <= BUFFER_SIZE,
        end - start < 256,
    ensures
        r@ == table_report(cmd, j as int, entries.deep_view().subrange(start as int, end as int)),
{
    let ghost all = entries.deep_view();
    let mut v: Vec<u8> = Vec::new();
    v.push(REPORT_ID);
    v.push(cmd);
    v.push(j);
    v.push((end - start) as u8);
    let ghost header = v@;
    assert(header =~= seq![REPORT_ID, cmd, j as int as u8, (end - start) as u8]);
    let mut i: usize = start;
    while i < end
        invariant
            start <= i <= end <= entries.len(),
            all == entries.deep_view(),
            entries_of_width(all, width as nat),
            HEADER_LEN + (end - start) * width <= BUFFER_SIZE,
            v@ == header + flat(all.subrange(start as int, i as int)),
        decreases end - i,
    {
        let e = &entries[i];
        assert(e@ == all[i as int]);
        let ghost before = v@;
        let mut k: usize = 0;
        while k < e.len()
            invariant
                k <= e.len(),
                v@ == before + e@.take(k as int),
            decreases e.len() - k,
        {
            v.push(e[k]);
            assert(e@.take(k as int + 1) =~= e@.take(k as int).push(e@[k as int]));
            assert(v@ =~= before + e@.take(k as int + 1));
            k = k + 1;
        }
        assert(e@.take(e.len() as int) =~= e@);
        assert(all.subrange(start as int, i as int + 1).drop_last() =~= all.subrange(start as int, i as int));
        assert(v@ =~= header + flat(all.subrange(start as int, i as int + 1)));
        i = i + 1;
    }
    let ghost body = v@;
    proof {
        let part = all.subrange(start as int, end as int);
        assert(entries_of_width(part, width as nat));
        lemma_flat_len(part, width as nat);
        assert(body.len() == HEADER_LEN + (end - start) * width);
    }
    pad_report(v)
}

/// Splits a table of equal-width entries into reports of `per` entries each,
/// in order.
pub fn build_table_reports(cmd: u8, entries: &Vec<Vec<u8>>, per: usize, width: usize) -> (r: Vec<Vec<u8>>)
    requires
        per > 0,
        width > 0,
        entries_of_width(entries.deep_view(), width as nat),
        HEADER_LEN + per * width <= BUFFER_SIZE,
        entries.len() <= per * MAX_CHUNKS,
    ensures
        r.deep_view() == table_reports(cmd, entries.deep_view(), per as nat),
{
    let ghost all = entries.deep_view();
    let ghost total = chunk_count(all.len(), per as nat);
    proof {
        assert(per <= per * width) by (nonlinear_arith)
            requires width > 0;
        if all.len() > 0 {
            assert(total >= 1) by (nonlinear_arith)
                requires total == (all.len() + per - 1) as int / per as int, all.len() > 0, per > 0;
            assert(((all.len() + per - 1) as int / per as int) * per <= all.len() + per - 1) by (nonlinear_arith)
                requires per > 0;
            assert(total <= MAX_CHUNKS) by (nonlinear_arith)
                requires total * per <= all.len() + per - 1, all.len() <= per * MAX_CHUNKS, per > 0;
        }
    }
    let n = entries.len();
    let mut out: Vec<Vec<u8>> = Vec::new();
    let mut j: usize = 0;
    let mut start: usize = 0;
    loop
        invariant
            all == entries.deep_view(),
            n == all.len(),
            per > 0,
            per < 256,
            entries_of_width(all, width as nat),
            HEADER_LEN + per * width <= BUFFER_SIZE,
            n <= per * MAX_CHUNKS,
            total == chunk_count(n as nat, per as nat),
            total <= MAX_CHUNKS,
            start == j * per,
            j < total,
            start < n || (n == 0 && start == 0),
            out.len() == j,
            forall|q: int| 0 <= q < j ==> #[trigger] out.deep_view()[q] == table_report(cmd, q, chunk(all, per as nat, q)),
        decreases total - j,
    {
        let end = if n - start >= per { start + per } else { n };
        proof {
            assert((end - start) * width <= per * width) by (nonlinear_arith)
                requires end - start <= per;
        }
        let rep = build_table_report(cmd, j as u8, entries, start, end, width);
        assert(chunk(all, per as nat, j as int) == all.subrange(start as int, end as int));
        let ghost prev = out.deep_view();
        out.push(rep);
        assert forall|q: int| 0 <= q <= j implies #[trigger] out.deep_view()[q] == table_report(cmd, q, chunk(all, per as nat, q)) by {
            if q < j {
                assert(out.deep_view()[q] == prev[q]);
            }
        }
        proof {
            assert((j + 1) * per == j * per + per) by (nonlinear_arith);
        }
        if end >= n {
            proof {
                if n > 0 {
                    assert(total == j + 1) by (nonlinear_arith)
                        requires
                            total == (n + per - 1) as int / per as int,
                            j * per < n,
                            n <= j * per + per,
                            per > 0;
                } else {
                    assert(total == 1);
                }
            }
            assert(out.deep_view() =~= table_reports(cmd, all, per as nat));
            return out;
        }
        proof {
            assert(j + 1 < total) by (nonlinear_arith)
                requires
                    total == (n + per - 1) as int / per as int,
                    (j + 1) * per < n,
                    per > 0;
        }
        j = j + 1;
        start = end;
    }
}

/// A padded payload has the report size.
pub proof fn lemma_pad_len(s: Seq<u8>)
    requires
        s.len() <= BUFFER_SIZE,
    ensures
        pad(s).len() == BUFFER_SIZE,
        pad(s).subrange(0, s.len() as int) == s,
{
    assert(pad(s).subrange(0, s.len() as int) =~= s);
}

/// The chunks of a table lie inside it and hold at most `per` entries.
pub proof fn lemma_chunk_bounds(n: nat, per: nat, j: int)
    requires
        per > 0,
        0 <= j < chunk_count(n, per),
    ensures
        j * per <= n,
        n > 0 ==> j * per < n,
{
    if n > 0 {
        assert(j * per < n) by (nonlinear_arith)
            requires
                j < (n + per - 1) as int / per as int,
                per > 0,
                j >= 0;
    } else {
        assert(j == 0);
    }
}

/// Entry `q` of a table of equal-width entries starts at byte `q * width`.
pub proof fn lemma_flat_index(s: Seq<Seq<u8>>, width: nat, q: int, t: int)
    requires
        entries_of_width(s, width),
        0 <= q < s.len(),
        0 <= t < width,
    ensures
        flat(s).len() == s.len() * width,
        flat(s)[q * width + t] == s[q][t],
    decreases s.len(),
{
    lemma_flat_len(s, width);
    assert(entries_of_width(s.drop_last(), width));
    lemma_flat_len(s.drop_last(), width);
    if q < s.len() - 1 {
        lemma_flat_index(s.drop_last(), width, q, t);
        assert(q * width + t < (s.len() - 1) * width) by (nonlinear_arith)
            requires q < s.len() - 1, t < width, q >= 0;
    } else {
        assert(q * width == (s.len() - 1) * width);
    }
}

/// Every report of a table has the report size, and carries its command in byte 1.
pub proof fn lemma_table_reports_shape(cmd: u8, entries: Seq<Seq<u8>>, per: nat, width: nat)
    requires
        per > 0,
        entries_of_width(entries, width),
        HEADER_LEN + per * width <= BUFFER_SIZE,
    ensures
        table_reports(cmd, entries, per).len() >= 1,
        forall|j: int| 0 <= j < table_reports(cmd, entries, per).len() ==> {
            &&& (#[trigger] table_reports(cmd, entries, per)[j]).len() == BUFFER_SIZE
            &&& table_reports(cmd, entries, per)[j][0] == REPORT_ID
            &&& table_reports(cmd, entries, per)[j][1] == cmd
        },
{
    let n = entries.len();
    assert forall|j: int| 0 <= j < table_reports(cmd, entries, per).len() implies {
        &&& (#[trigger] table_reports(cmd, entries, per)[j]).len() == BUFFER_SIZE
        &&& table_reports(cmd, entries, per)[j][0] == REPORT_ID
        &&& table_reports(cmd, entries, per)[j][1] == cmd
    } by {
        lemma_chunk_bounds(n, per, j);
        let part = chunk(entries, per, j);
        assert(entries_of_width(part, width));
        lemma_flat_len(part, width);
        assert(part.len() * width <= per * width) by (nonlinear_arith)
            requires part.len() <= per;
        let body = seq![REPORT_ID, cmd, j as u8, part.len() as u8] + flat(part);
        lemma_pad_len(body);
        assert(pad(body)[1] == body[1]);
    }
    if n > 0 {
        assert(chunk_count(n, per) >= 1) by (nonlinear_arith)
            requires n > 0, per > 0, chunk_count(n, per) == (n + per - 1) as int / per as int;
    }
}

/// Byte `t` of entry `i` of a table stands in report `i / per`, at byte
/// `HEADER_LEN + width * (i % per) + t`.
pub proof fn lemma_table_entry(cmd: u8, entries: Seq<Seq<u8>>, per: nat, width: nat, i: int, t: int)
    requires
        per > 0,
        entries_of_width(entries, width),
        HEADER_LEN + per * width <= BUFFER_SIZE,
        0 <= i < entries.len(),
        0 <= t < width,
    ensures
        i / (per as int) < table_reports(cmd, entries, per).len(),
        table_reports(cmd, entries, per)[i / (per as int)][HEADER_LEN + width * (i % (per as int)) + t] == entries[i][t],
{
    let p = per as int;
    let q = i / p;
    let r = i % p;
    let n = entries.len();
    assert(q * p + r == i && 0 <= r < p) by (nonlinear_arith)
        requires q == i / p, r == i % p, p > 0, i >= 0;
    assert(q < chunk_count(n, per)) by (nonlinear_arith)
        requires q * p + r == i, 0 <= r < p, i < n, p > 0, q >= 0,
            chunk_count(n, per) == (n + p - 1) as int / p;
    lemma_chunk_bounds(n, per, q);
    let part = chunk(entries, per, q);
    assert(part[r] == entries[i]);
    assert(entries_of_width(part, width));
    lemma_flat_len(part, width);
    assert(part.len() * width <= per * width) by (nonlinear_arith)
        requires part.len() <= per;
    let body = seq![REPORT_ID, cmd, q as u8, part.len() as u8] + flat(part);
    lemma_pad_len(body);
    lemma_flat_index(part, width, r, t);
    assert(r * width + t < part.len() * width) by (nonlinear_arith)
        requires r < part.len(), t < width, r >= 0;
    assert(width * r == r * width) by (nonlinear_arith);
    assert(pad(body)[HEADER_LEN + width * r + t] == body[HEADER_LEN + width * r + t]);
    assert(table_reports(cmd, entries, per)[q] == pad(body));
}

} // verus!
