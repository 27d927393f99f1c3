//! The rows of a detailed listing (`ll`).
use vstd::prelude::*;

verus! {

/// What a detailed listing shows of an object.
pub struct ObjectDetail {
    pub storage_class: Option<String>,
    pub mtime: Option<String>,
    pub etag: Option<String>,
    pub size: Option<usize>,
    /// The object's address as the listing names it.
    pub name: String,
}

/// The heading of a detailed listing.
pub fn detail_header() -> (r: &'static str)
    ensures
        r@ == "STORAGE CLASS\tMODIFIED TIME\t\t\tETAG\t\t\t\t\tSIZE\tKEY"@,
{
    "STORAGE CLASS\tMODIFIED TIME\t\t\tETAG\t\t\t\t\tSIZE\tKEY"
}

/// A size in decimal units as `humansize` writes it (`make_format_i(DECIMAL)`).
pub uninterp spec fn human_size_text(n: usize) -> Seq<char>;

/// `humansize::make_format_i(humansize::DECIMAL)` applied to `n`. Named,
/// nothing else claimed.
#[verifier::external_body]
fn human_size(n: usize) -> (r: String)
    ensures
        r@ == human_size_text(n),
{
    humansize::make_format_i(humansize::DECIMAL)(n)
}

pub open spec fn shown_or(s: Option<String>, blank: Seq<char>) -> Seq<char> {
    match s {
        Some(t) => t@,
        None => blank,
    }
}

/// The row of an object: storage class, modification time, ETag, size and
/// name, separated by tabs; a missing field is left blank at its width.
pub open spec fn detail_row(o: ObjectDetail) -> Seq<char> {
    shown_or(o.storage_class, "        "@) + "\t"@ + shown_or(o.mtime, "                        "@) + "\t"@
        + shown_or(o.etag, "                                 "@) + "\t"@ + match o.size {
        Some(n) => human_size_text(n),
        None => Seq::empty(),
    } + "\t"@ + o.name@
}

fn shown(s: &Option<String>, blank: &str) -> (r: String)
    ensures
        r@ == shown_or(*s, blank@),
{
    match s {
        Some(t) => t.clone(),
        None => blank.to_owned(),
    }
}

/// The row that a detailed listing prints for an object.
pub fn detail_line(o: &ObjectDetail) -> (r: String)
    ensures
        r@ == detail_row(*o),
{
    let mut s = shown(&o.storage_class, "        ");
    s.append("\t");
    s.append(shown(&o.mtime, "                        ").as_str());
    s.append("\t");
    s.append(shown(&o.etag, "                                 ").as_str());
    s.append("\t");
    match o.size {
        Some(n) => s.append(human_size(n).as_str()),
        None => {
            proof {
                reveal_strlit("");
            }
        },
    }
    s.append("\t");
    s.append(o.name.as_str());
    proof {
        if o.size is None {
            assert(s@ =~= detail_row(*o));
        }
    }
    s
}

/// The lines of a detailed listing: the heading, then one row per object,
/// in the order of the listing.
pub open spec fn detail_listing(entries: Seq<ObjectDetail>) -> Seq<Seq<char>> {
    seq!["STORAGE CLASS\tMODIFIED TIME\t\t\tETAG\t\t\t\t\tSIZE\tKEY"@] + entries.map_values(
        |o: ObjectDetail| detail_row(o),
    )
}

/// The lines that a detailed listing prints for the objects.
pub fn detail_lines(entries: &Vec<ObjectDetail>) -> (r: Vec<String>)
    ensures
        r.deep_view() == detail_listing(entries@),
{
    let mut out: Vec<String> = Vec::new();
    out.push(detail_header().to_owned());
    let mut i: usize = 0;
    while i < entries.len()
        invariant
            i <= entries.len(),
            out.deep_view() == seq!["STORAGE CLASS\tMODIFIED TIME\t\t\tETAG\t\t\t\t\tSIZE\tKEY"@]
                + entries@.take(i as int).map_values(|o: ObjectDetail| detail_row(o)),
        decreases entries.len() - i,
    {
        let line = detail_line(&entries[i]);
        let ghost prev = out.deep_view();
        out.push(line);
        assert(out.deep_view() =~= prev.push(line@));
        assert(entries@.take(i + 1).map_values(|o: ObjectDetail| detail_row(o)) =~= entries@.take(
            i as int,
        ).map_values(|o: ObjectDetail| detail_row(o)).push(detail_row(entries@[i as int])));
        i = i + 1;
    }
    assert(entries@.take(entries.len() as int) =~= entries@);
    out
}

} // verus!
