//! The record files: one header line, then one line per observed price.
use vstd::prelude::*;
use crate::json::{number_text, number_view};
use crate::source::PriceSource;
use crate::text::{decimal, decimal_spec};

verus! {

/// The header line that opens every record file.
pub open spec fn header() -> Seq<char> {
    "timestamp_unix,asset,price_usd\n"@
}

/// The line of one observation: timestamp, asset code and price, comma-separated.
pub open spec fn data_line(ts: nat, asset: Seq<char>, price: Seq<char>) -> Seq<char> {
    decimal_spec(ts) + ","@ + asset + ","@ + price + "\n"@
}

/// What one persist appends to a file whose contents are `contents`: the
/// header if the file is empty, then the data line.
pub open spec fn appended_text(contents: Seq<char>, ts: nat, asset: Seq<char>, price: Seq<char>) -> Seq<char> {
    if contents.len() == 0 {
        header() + data_line(ts, asset, price)
    } else {
        data_line(ts, asset, price)
    }
}

/// An observation as the file model sees it: timestamp, asset code, price text.
pub type Observation = (nat, Seq<char>, Seq<char>);

/// The contents of a file after persisting `obs` in order, starting from `contents`.
pub open spec fn file_after(contents: Seq<char>, obs: Seq<Observation>) -> Seq<char>
    decreases obs.len(),
{
    if obs.len() == 0 {
        contents
    } else {
        let before = file_after(contents, obs.drop_last());
        let o = obs.last();
        before + appended_text(before, o.0, o.1, o.2)
    }
}

/// The data lines of `obs`, in order.
pub open spec fn data_lines(obs: Seq<Observation>) -> Seq<char>
    decreases obs.len(),
{
    if obs.len() == 0 {
        Seq::empty()
    } else {
        let o = obs.last();
        data_lines(obs.drop_last()) + data_line(o.0, o.1, o.2)
    }
}

/// The text that one persist appends: the header when the file was empty,
/// then the data line of the observation.
pub fn record_text(was_empty: bool, ts: u64, asset: &str, price: &str) -> (r: String)
    ensures
        r@ == (if was_empty { header() } else { Seq::empty() }) + data_line(ts as nat, asset@, price@),
{
    let mut s = String::new();
    if was_empty {
        s.append("timestamp_unix,asset,price_usd\n");
    }
    let d = decimal(ts);
    s.append(d.as_str());
    s.append(",");
    s.append(asset);
    s.append(",");
    s.append(price);
    s.append("\n");
    assert(s@ == (if was_empty { header() } else { Seq::empty() }) + data_line(ts as nat, asset@, price@));
    s
}

impl PriceSource {
    /// The text that persisting `price` at `ts` appends to this source's file.
    pub fn record(&self, was_empty: bool, ts: u64, price: &serde_json::Number) -> (r: String)
        ensures
            r@ == (if was_empty { header() } else { Seq::empty() }) + data_line(
                ts as nat,
                self.code()@,
                number_view(*price),
            ),
    {
        let p = number_text(price);
        record_text(was_empty, ts, self.name(), p.as_str())
    }
}

proof fn lemma_header_nonempty()
    ensures
        header().len() > 0,
{
    reveal_strlit("timestamp_unix,asset,price_usd\n");
}

proof fn lemma_data_line_nonempty(ts: nat, asset: Seq<char>, price: Seq<char>)
    ensures
        data_line(ts, asset, price).len() > 0,
{
    reveal_strlit("\n");
}

/// A file holds exactly one header, however many observations are persisted
/// to it: starting from an empty file, the contents are the header followed by
/// the data lines in order; starting from a non-empty file, only data lines
/// are added.
pub proof fn lemma_single_header(contents: Seq<char>, obs: Seq<Observation>)
    ensures
        contents.len() == 0 && obs.len() > 0 ==> file_after(contents, obs) == header() + data_lines(obs),
        contents.len() > 0 ==> file_after(contents, obs) == contents + data_lines(obs),
    decreases obs.len(),
{
    lemma_header_nonempty();
    if obs.len() > 0 {
        let o = obs.last();
        let rest = obs.drop_last();
        lemma_single_header(contents, rest);
        lemma_data_line_nonempty(o.0, o.1, o.2);
        if rest.len() == 0 {
            assert(data_lines(rest) == Seq::<char>::empty());
            assert(file_after(contents, rest) == contents);
            if contents.len() == 0 {
                assert(data_lines(obs) == data_line(o.0, o.1, o.2));
                assert(file_after(contents, obs) == header() + data_lines(obs));
            } else {
                assert(file_after(contents, obs) == contents + data_lines(obs));
            }
        } else {
            let before = file_after(contents, rest);
            assert(before.len() > 0) by {
                if contents.len() == 0 {
                    assert(before == header() + data_lines(rest));
                }
            }
            if contents.len() == 0 {
                assert(file_after(contents, obs) == header() + data_lines(rest) + data_line(o.0, o.1, o.2));
                assert(header() + data_lines(rest) + data_line(o.0, o.1, o.2) == header() + data_lines(obs));
            } else {
                assert(contents + data_lines(rest) + data_line(o.0, o.1, o.2) == contents + data_lines(obs));
            }
        }
    }
}

/// Persisting is append-only and keeps call order: what was in the file stays
/// its prefix, and persisting one run of observations then another leaves the
/// same contents as persisting both runs in that order.
pub proof fn lemma_append_in_order(contents: Seq<char>, first: Seq<Observation>, second: Seq<Observation>)
    ensures
        file_after(contents, first).subrange(0, contents.len() as int) == contents,
        file_after(file_after(contents, first), second) == file_after(contents, first + second),
    decreases second.len(),
{
    lemma_prefix(contents, first);
    if second.len() > 0 {
        lemma_append_in_order(contents, first, second.drop_last());
        assert((first + second).drop_last() == first + second.drop_last());
        assert((first + second).last() == second.last());
    } else {
        assert(first + second == first);
    }
}

proof fn lemma_prefix(contents: Seq<char>, obs: Seq<Observation>)
    ensures
        file_after(contents, obs).len() >= contents.len(),
        file_after(contents, obs).subrange(0, contents.len() as int) == contents,
    decreases obs.len(),
{
    if obs.len() > 0 {
        lemma_prefix(contents, obs.drop_last());
        let before = file_after(contents, obs.drop_last());
        let o = obs.last();
        let after = before + appended_text(before, o.0, o.1, o.2);
        assert(after.subrange(0, before.len() as int) == before);
        assert(after.subrange(0, contents.len() as int) == before.subrange(0, contents.len() as int));
    }
}

} // verus!
