//! Markdown pieces the periodic reports are built from.
use vstd::prelude::*;
use crate::processor::record::WorkRecord;
use crate::processor::report::records::{derefs, pair_views};
use crate::processor::review::percent;
use crate::text::decimal;

verus! {

/// One bullet per record: `- **title**：summary`.
pub open spec fn record_bullets(rs: Seq<WorkRecord>) -> Seq<char>
    decreases rs.len(),
{
    if rs.len() == 0 {
        Seq::empty()
    } else {
        record_bullets(rs.drop_last()) + "- **"@ + rs.last().title@ + "**："@ + rs.last().summary@ + "\n"@
    }
}

/// One line per record: `prefix` then its title.
pub open spec fn title_lines(rs: Seq<WorkRecord>, prefix: Seq<char>) -> Seq<char>
    decreases rs.len(),
{
    if rs.len() == 0 {
        Seq::empty()
    } else {
        title_lines(rs.drop_last(), prefix) + prefix + rs.last().title@ + "\n"@
    }
}

/// One table row per (label, count): `| label | count |`.
pub open spec fn count_rows(c: Seq<(Seq<char>, nat)>) -> Seq<char>
    decreases c.len(),
{
    if c.len() == 0 {
        Seq::empty()
    } else {
        count_rows(c.drop_last()) + "| "@ + c.last().0 + " | "@ + decimal(c.last().1) + " |\n"@
    }
}

/// Appends one bullet per record (see `record_bullets`).
pub fn push_record_bullets(md: &mut String, rs: &Vec<&WorkRecord>)
    ensures
        final(md)@ == old(md)@ + record_bullets(derefs(rs@)),
{
    let ghost d = derefs(rs@);
    let mut i: usize = 0;
    assert(old(md)@ + record_bullets(d.take(0)) =~= old(md)@);
    while i < rs.len()
        invariant
            i <= rs@.len(),
            d == derefs(rs@),
            md@ == old(md)@ + record_bullets(d.take(i as int)),
        decreases rs.len() - i,
    {
        let r = rs[i];
        assert(d.take(i + 1).drop_last() =~= d.take(i as int));
        assert(d.take(i + 1).last() == *r);
        crate::text::append_str(md, "- **");
        crate::text::append_str(md, r.title.as_str());
        crate::text::append_str(md, "**：");
        crate::text::append_str(md, r.summary.as_str());
        crate::text::append_str(md, "\n");
        i = i + 1;
    }
    assert(d.take(d.len() as int) =~= d);
}

/// Appends one line per record: `prefix` then its title.
pub fn push_title_lines(md: &mut String, rs: &Vec<&WorkRecord>, prefix: &str)
    ensures
        final(md)@ == old(md)@ + title_lines(derefs(rs@), prefix@),
{
    let ghost d = derefs(rs@);
    let mut i: usize = 0;
    assert(old(md)@ + title_lines(d.take(0), prefix@) =~= old(md)@);
    while i < rs.len()
        invariant
            i <= rs@.len(),
            d == derefs(rs@),
            md@ == old(md)@ + title_lines(d.take(i as int), prefix@),
        decreases rs.len() - i,
    {
        let r = rs[i];
        assert(d.take(i + 1).drop_last() =~= d.take(i as int));
        assert(d.take(i + 1).last() == *r);
        crate::text::append_str(md, prefix);
        crate::text::append_str(md, r.title.as_str());
        crate::text::append_str(md, "\n");
        i = i + 1;
    }
    assert(d.take(d.len() as int) =~= d);
}

/// Appends one table row per (label, count).
pub fn push_count_rows(md: &mut String, c: &[(&str, usize)])
    ensures
        final(md)@ == old(md)@ + count_rows(pair_views(c@)),
{
    let ghost p = pair_views(c@);
    let mut i: usize = 0;
    assert(old(md)@ + count_rows(p.take(0)) =~= old(md)@);
    while i < c.len()
        invariant
            i <= c@.len(),
            p == pair_views(c@),
            md@ == old(md)@ + count_rows(p.take(i as int)),
        decreases c.len() - i,
    {
        let (label, n) = c[i];
        assert(p.take(i + 1).drop_last() =~= p.take(i as int));
        assert(p.take(i + 1).last() == (label@, n as nat));
        crate::text::append_str(md, "| ");
        crate::text::append_str(md, label);
        crate::text::append_str(md, " | ");
        crate::text::push_decimal(md, n as u64);
        crate::text::append_str(md, " |\n");
        i = i + 1;
    }
    assert(p.take(p.len() as int) =~= p);
}

/// Appends a `u128` in decimal.
pub(crate) fn push_u128(s: &mut String, n: u128)
    requires
        n <= 202 * 0xffff_ffff_ffff_ffffu128,
    ensures
        final(s)@ == old(s)@ + decimal(n as nat),
    decreases n,
{
    if n < 10 {
        crate::text::push_decimal(s, n as u64);
    } else {
        push_u128(s, n / 10);
        crate::text::push_decimal(s, (n % 10) as u64);
        assert(decimal(n as nat) == decimal((n / 10) as nat).push(crate::text::digit_char((n % 10) as int)));
        assert(decimal((n % 10) as nat) == seq![crate::text::digit_char((n % 10) as int)]);
        assert(s@ =~= old(s)@ + decimal(n as nat));
    }
}

/// Appends `num / den` as a whole percentage rounded half up (0 when `den`
/// is 0), without the `%` sign (see `percent` for how halves are met).
pub fn push_percent(s: &mut String, num: usize, den: usize)
    ensures
        final(s)@ == old(s)@ + decimal(percent(num as nat, den as nat)),
{
    if den == 0 {
        crate::text::push_decimal(s, 0);
    } else {
        let p: u128 = (200 * num as u128 + den as u128) / (2 * den as u128);
        assert(p <= 200 * num as u128 + den as u128) by (nonlinear_arith)
            requires
                p == (200 * num as u128 + den as u128) / (2 * den as u128),
                den > 0,
        ;
        assert(200 * num as u128 + den as u128 <= 202 * 0xffff_ffff_ffff_ffffu128) by (nonlinear_arith)
            requires
                num <= 0xffff_ffff_ffff_ffffu128,
                den <= 0xffff_ffff_ffff_ffffu128,
        ;
        push_u128(s, p);
    }
}

} // verus!
