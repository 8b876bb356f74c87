//! Printer directory: turns the raw enumeration output of the host
//! OS into a normalised list of printer descriptors with a small
//! status vocabulary, marking at most the reported default printer.

use vstd::prelude::*;
use crate::text::{
    contains_seq, has_prefix, is_space_char, trim_seq, contains_str, starts_with_str, str_eq, trim,
};

verus! {

/// One printer as reported to clients.
#[derive(Clone)]
pub struct PrinterInfo {
    /// The queue name the OS knows the printer by.
    pub name: String,
    /// Whether the OS reports this printer as the default.
    pub is_default: bool,
    /// One of `ready`, `busy` or `unknown`.
    pub status: String,
}

/// The mathematical shadow of a descriptor.
pub struct PrinterModel {
    /// The queue name.
    pub name: Seq<char>,
    /// Whether this printer is the default.
    pub is_default: bool,
    /// The normalised status word.
    pub status: Seq<char>,
}

impl View for PrinterInfo {
    type V = PrinterModel;

    open spec fn view(&self) -> PrinterModel {
        PrinterModel { name: self.name@, is_default: self.is_default, status: self.status@ }
    }
}

/// The views of a descriptor list.
pub open spec fn views_of(v: Seq<PrinterInfo>) -> Seq<PrinterModel> {
    v.map_values(|p: PrinterInfo| p@)
}

/// First newline position in `s`, or a negative value when none.
pub open spec fn find_nl(s: Seq<char>) -> int
    decreases s.len(),
{
    if s.len() == 0 {
        -1
    } else if s[0] == '\n' {
        0
    } else if find_nl(s.drop_first()) < 0 {
        -1
    } else {
        find_nl(s.drop_first()) + 1
    }
}

/// The lines of `s`, split at each newline.
pub open spec fn split_lines_spec(s: Seq<char>) -> Seq<Seq<char>>
    decreases s.len(),
{
    let i = find_nl(s);
    if 0 <= i < s.len() {
        seq![s.take(i)] + split_lines_spec(s.skip(i + 1))
    } else {
        seq![s]
    }
}

/// First index at or past `i` whose character is not whitespace.
pub open spec fn skip_spaces_spec(l: Seq<char>, i: int) -> int
    decreases l.len() - i,
{
    if 0 <= i < l.len() && is_space_char(l[i]) {
        skip_spaces_spec(l, i + 1)
    } else {
        i
    }
}

/// First index at or past `i` whose character is whitespace.
pub open spec fn skip_token_spec(l: Seq<char>, i: int) -> int
    decreases l.len() - i,
{
    if 0 <= i < l.len() && !is_space_char(l[i]) {
        skip_token_spec(l, i + 1)
    } else {
        i
    }
}

/// Start of the queue name on a `printer ...` line.
pub open spec fn name_start(l: Seq<char>) -> int {
    skip_spaces_spec(l, 8)
}

/// End of the queue name on a `printer ...` line.
pub open spec fn name_end(l: Seq<char>) -> int {
    skip_token_spec(l, name_start(l))
}

/// A line that announces one printer with a non-empty queue name.
pub open spec fn is_printer_line(l: Seq<char>) -> bool {
    has_prefix(l, "printer "@) && name_start(l) < name_end(l)
}

/// A line that announces the system default destination.
pub open spec fn is_default_line(l: Seq<char>) -> bool {
    has_prefix(l, "system default destination:"@)
}

/// The default queue name a default line announces.
pub open spec fn default_name_of(l: Seq<char>) -> Seq<char> {
    trim_seq(l.skip("system default destination:"@.len() as int))
}

/// The status word a printer line announces.
pub open spec fn status_of(l: Seq<char>) -> Seq<char> {
    if contains_seq(l, "idle"@) {
        "ready"@
    } else if contains_seq(l, "printing"@) {
        "busy"@
    } else {
        "unknown"@
    }
}

/// The descriptor a printer line announces, before default marking.
pub open spec fn entry_of(l: Seq<char>) -> PrinterModel {
    PrinterModel {
        name: l.subrange(name_start(l), name_end(l)),
        is_default: false,
        status: status_of(l),
    }
}

/// The descriptors of all printer lines, in order of appearance.
pub open spec fn entries(lines: Seq<Seq<char>>) -> Seq<PrinterModel>
    decreases lines.len(),
{
    if lines.len() == 0 {
        Seq::empty()
    } else if is_printer_line(lines.last()) {
        entries(lines.drop_last()).push(entry_of(lines.last()))
    } else {
        entries(lines.drop_last())
    }
}

/// The default queue name the output announces: the last default
/// line wins; empty when there is none.
pub open spec fn last_default(lines: Seq<Seq<char>>) -> Seq<char>
    decreases lines.len(),
{
    if lines.len() == 0 {
        Seq::empty()
    } else if is_default_line(lines.last()) {
        default_name_of(lines.last())
    } else {
        last_default(lines.drop_last())
    }
}

/// Default marking: a descriptor is the default exactly when its name
/// is the announced default name.
pub open spec fn mark_default(es: Seq<PrinterModel>, d: Seq<char>) -> Seq<PrinterModel> {
    es.map_values(
        |e: PrinterModel| PrinterModel { name: e.name, is_default: e.name == d, status: e.status },
    )
}

/// The full reading of one enumeration output.
pub open spec fn parsed_printers(text: Seq<char>) -> Seq<PrinterModel> {
    mark_default(entries(split_lines_spec(text)), last_default(split_lines_spec(text)))
}

/// Reading the same output twice gives the same descriptors, so also
/// the same set of descriptors up to ordering.
pub proof fn lemma_enumeration_repeatable(
    a: Seq<PrinterModel>,
    b: Seq<PrinterModel>,
    text: Seq<char>,
)
    requires
        a == parsed_printers(text),
        b == parsed_printers(text),
    ensures
        a == b,
        a.to_multiset() == b.to_multiset(),
{
}

/// When the reported queue names are pairwise distinct, at most one
/// descriptor carries the default mark.
pub proof fn lemma_at_most_one_default(text: Seq<char>)
    requires
        forall|i: int, j: int|
            0 <= i < j < parsed_printers(text).len() ==> #[trigger] parsed_printers(
                text,
            )[i].name != #[trigger] parsed_printers(text)[j].name,
    ensures
        forall|i: int, j: int|
            0 <= i < j < parsed_printers(text).len() && #[trigger] parsed_printers(
                text,
            )[i].is_default ==> !(#[trigger] parsed_printers(text)[j].is_default),
{
    let ps = parsed_printers(text);
    let es = entries(split_lines_spec(text));
    let d = last_default(split_lines_spec(text));
    assert forall|i: int, j: int|
        0 <= i < j < ps.len() && #[trigger] ps[i].is_default implies !(#[trigger] ps[j].is_default) by {
        assert(ps[i] == mark_default(es, d)[i]);
        assert(ps[j] == mark_default(es, d)[j]);
        if ps[j].is_default {
            assert(ps[i].name == es[i].name && es[i].name == d);
            assert(ps[j].name == es[j].name && es[j].name == d);
            assert(ps[i].name != ps[j].name);
        }
    }
}

/// A descriptor carries the default mark exactly when its queue name
/// is the default destination the output announces; this holds of
/// every output, duplicated names included.
pub proof fn lemma_default_iff_announced(text: Seq<char>)
    ensures
        forall|i: int|
            0 <= i < parsed_printers(text).len() ==> ((#[trigger] parsed_printers(
                text,
            )[i]).is_default <==> parsed_printers(text)[i].name == last_default(
                split_lines_spec(text),
            )),
{
    let es = entries(split_lines_spec(text));
    let d = last_default(split_lines_spec(text));
    assert forall|i: int| 0 <= i < parsed_printers(text).len() implies ((#[trigger] parsed_printers(
        text,
    )[i]).is_default <==> parsed_printers(text)[i].name == d) by {
        assert(parsed_printers(text)[i] == mark_default(es, d)[i]);
    }
}

proof fn lemma_find_nl_at(t: Seq<char>, k: int)
    requires
        0 <= k < t.len(),
        t[k] == '\n',
        forall|j: int| 0 <= j < k ==> t[j] != '\n',
    ensures
        find_nl(t) == k,
    decreases k,
{
    if k == 0 {
    } else {
        assert(t[0] != '\n');
        lemma_find_nl_at(t.drop_first(), k - 1);
    }
}

proof fn lemma_find_nl_none(t: Seq<char>)
    requires
        forall|j: int| 0 <= j < t.len() ==> t[j] != '\n',
    ensures
        find_nl(t) < 0,
    decreases t.len(),
{
    if t.len() > 0 {
        lemma_find_nl_none(t.drop_first());
    }
}

/// The first line of an output is what stands before its first
/// newline.
pub proof fn lemma_first_line(s: Seq<char>, k: int)
    requires
        0 <= k < s.len(),
        s[k] == '\n',
        forall|j: int| 0 <= j < k ==> s[j] != '\n',
    ensures
        split_lines_spec(s)[0] == s.subrange(0, k),
{
    lemma_find_nl_at(s, k);
    assert(s.take(k) =~= s.subrange(0, k));
}

/// An output without a newline is its own first line.
pub proof fn lemma_first_line_whole(s: Seq<char>)
    requires
        forall|j: int| 0 <= j < s.len() ==> s[j] != '\n',
    ensures
        split_lines_spec(s)[0] == s,
{
    lemma_find_nl_none(s);
}

/// Splits into lines at each newline, as the lines spec reads them.
pub fn split_lines(s: &str) -> (r: Vec<String>)
    ensures
        r@.map_values(|l: String| l@) == split_lines_spec(s@),
{
    let n = s.unicode_len();
    let mut r: Vec<String> = Vec::new();
    let mut line_start: usize = 0;
    let mut i: usize = 0;
    proof {
        assert(s@.skip(0) =~= s@);
        assert(r@.map_values(|l: String| l@) =~= Seq::<Seq<char>>::empty());
        assert(r@.map_values(|l: String| l@) + split_lines_spec(s@) =~= split_lines_spec(s@));
    }
    while i < n
        invariant
            n == s@.len(),
            line_start <= i <= n,
            forall|j: int| line_start <= j < i ==> s@[j] != '\n',
            split_lines_spec(s@) =~= r@.map_values(|l: String| l@) + split_lines_spec(
                s@.skip(line_start as int),
            ),
        decreases n - i,
    {
        if s.get_char(i) == '\n' {
            let piece = String::from_str(s.substring_char(line_start, i));
            proof {
                let t = s@.skip(line_start as int);
                let k = i - line_start;
                assert(t[k] == s@[i as int]);
                assert(forall|j: int| 0 <= j < k ==> t[j] == s@[j + line_start]);
                lemma_find_nl_at(t, k);
                assert(t.take(k) =~= s@.subrange(line_start as int, i as int));
                assert(t.skip(k + 1) =~= s@.skip(i + 1));
                assert(split_lines_spec(t) == seq![t.take(k)] + split_lines_spec(t.skip(k + 1)));
                assert((r@.map_values(|l: String| l@)).push(piece@) =~= r@.map_values(
                    |l: String| l@,
                ) + seq![s@.subrange(line_start as int, i as int)]);
                assert((r@.push(piece)).map_values(|l: String| l@) =~= (r@.map_values(
                    |l: String| l@,
                )).push(piece@));
                assert(r@.map_values(|l: String| l@) + (seq![t.take(k)] + split_lines_spec(
                    t.skip(k + 1),
                )) =~= (r@.map_values(|l: String| l@) + seq![t.take(k)]) + split_lines_spec(
                    t.skip(k + 1),
                ));
            }
            r.push(piece);
            line_start = i + 1;
        }
        i += 1;
    }
    let piece = String::from_str(s.substring_char(line_start, n));
    proof {
        let t = s@.skip(line_start as int);
        assert(forall|j: int| 0 <= j < t.len() ==> t[j] == s@[j + line_start]);
        lemma_find_nl_none(t);
        assert(split_lines_spec(t) == seq![t]);
        assert(t =~= s@.subrange(line_start as int, n as int));
        assert((r@.push(piece)).map_values(|l: String| l@) =~= (r@.map_values(
            |l: String| l@,
        )).push(piece@));
        assert(r@.map_values(|l: String| l@) + seq![t] =~= (r@.map_values(|l: String| l@)).push(
            t,
        ));
    }
    r.push(piece);
    r
}

proof fn lemma_skip_spaces_fixpoint(l: Seq<char>, from: int, r: int)
    requires
        0 <= from <= r <= l.len(),
        forall|j: int| from <= j < r ==> is_space_char(#[trigger] l[j]),
        r < l.len() ==> !is_space_char(l[r]),
    ensures
        skip_spaces_spec(l, from) == r,
    decreases r - from,
{
    if from < r {
        lemma_skip_spaces_fixpoint(l, from + 1, r);
    }
}

proof fn lemma_skip_token_fixpoint(l: Seq<char>, from: int, r: int)
    requires
        0 <= from <= r <= l.len(),
        forall|j: int| from <= j < r ==> !is_space_char(#[trigger] l[j]),
        r < l.len() ==> is_space_char(l[r]),
    ensures
        skip_token_spec(l, from) == r,
    decreases r - from,
{
    if from < r {
        lemma_skip_token_fixpoint(l, from + 1, r);
    }
}

/// Reads one line of enumeration output into a descriptor, when the
/// line announces a printer.
fn parse_printer_line(line: &str) -> (r: Option<PrinterInfo>)
    ensures
        r is Some <==> is_printer_line(line@),
        r matches Some(p) ==> p@ == entry_of(line@),
{
    if !starts_with_str(line, "printer ") {
        return None;
    }
    proof {
        reveal_strlit("printer ");
    }
    let a = crate::text::skip_spaces(line, 8);
    let b = crate::text::skip_token(line, a);
    proof {
        lemma_skip_spaces_fixpoint(line@, 8, a as int);
        lemma_skip_token_fixpoint(line@, a as int, b as int);
    }
    if b == a {
        return None;
    }
    let name = String::from_str(line.substring_char(a, b));
    let status = if contains_str(line, "idle") {
        String::from_str("ready")
    } else if contains_str(line, "printing") {
        String::from_str("busy")
    } else {
        String::from_str("unknown")
    };
    Some(PrinterInfo { name, is_default: false, status })
}

/// Parses the enumeration output of the host's queue listing: one
/// descriptor per announced printer, in order, with the announced
/// default queue marked.
pub fn parse_printer_listing(text: &str) -> (r: Vec<PrinterInfo>)
    ensures
        views_of(r@) == parsed_printers(text@),
{
    let lines = split_lines(text);
    let ghost ls = lines@.map_values(|l: String| l@);
    let mut found: Vec<PrinterInfo> = Vec::new();
    let mut default_name = String::new();
    let mut i: usize = 0;
    while i < lines.len()
        invariant
            ls == lines@.map_values(|l: String| l@),
            i <= lines@.len(),
            views_of(found@) =~= entries(ls.take(i as int)),
            default_name@ == last_default(ls.take(i as int)),
        decreases lines@.len() - i,
    {
        let line = &lines[i];
        let ghost pre = ls.take(i as int);
        proof {
            assert(ls.take(i + 1).drop_last() =~= pre);
            assert(ls.take(i + 1).last() == line@);
        }
        match parse_printer_line(line.as_str()) {
            Some(p) => {
                proof {
                    assert(views_of(found@.push(p)) =~= views_of(found@).push(p@));
                }
                found.push(p);
            },
            None => {},
        }
        if starts_with_str(line.as_str(), "system default destination:") {
            proof {
                reveal_strlit("system default destination:");
            }
            let rest = line.as_str().substring_char(27, line.as_str().unicode_len());
            proof {
                assert(rest@ =~= line@.skip("system default destination:"@.len() as int));
            }
            default_name = trim(rest);
        }
        i += 1;
    }
    proof {
        assert(ls.take(ls.len() as int) =~= ls);
    }
    let mut marked: Vec<PrinterInfo> = Vec::new();
    let mut k: usize = 0;
    while k < found.len()
        invariant
            k <= found@.len(),
            views_of(found@) == entries(ls),
            default_name@ == last_default(ls),
            views_of(marked@) =~= mark_default(entries(ls), last_default(ls)).take(k as int),
        decreases found@.len() - k,
    {
        let e = &found[k];
        let is_def = str_eq(e.name.as_str(), default_name.as_str());
        let p = PrinterInfo { name: e.name.clone(), is_default: is_def, status: e.status.clone() };
        proof {
            assert(views_of(found@)[k as int] == e@);
            assert(mark_default(entries(ls), last_default(ls))[k as int] == p@);
            assert(views_of(marked@.push(p)) =~= views_of(marked@).push(p@));
            assert(mark_default(entries(ls), last_default(ls)).take(k + 1) =~= mark_default(
                entries(ls),
                last_default(ls),
            ).take(k as int).push(mark_default(entries(ls), last_default(ls))[k as int]));
        }
        marked.push(p);
        k += 1;
    }
    proof {
        assert(mark_default(entries(ls), last_default(ls)).take(
            mark_default(entries(ls), last_default(ls)).len() as int,
        ) =~= mark_default(entries(ls), last_default(ls)));
        assert(entries(ls).len() == mark_default(entries(ls), last_default(ls)).len());
    }
    marked
}

/// Lists the system's printers from the captured output of the host's
/// queue-listing command; a failed enumeration (no output) is the
/// valid, degraded state of no printers.
pub fn list_printers(output: Option<&str>) -> (r: Vec<PrinterInfo>)
    ensures
        output matches Some(text) ==> views_of(r@) == parsed_printers(text@),
        output is None ==> r@.len() == 0,
{
    match output {
        Some(text) => parse_printer_listing(text),
        None => Vec::new(),
    }
}

/// The shape of a host enumeration answer: one printer arrives as a
/// single object, several as an array, anything else is unusable.
#[derive(Clone, Copy, PartialEq, Eq, Structural, Debug)]
pub enum ListingShape {
    /// The answer opens a JSON array.
    Array,
    /// The answer opens a JSON object.
    Object,
    /// The answer is neither.
    Other,
}

/// Reads the shape of an enumeration answer from its first
/// non-whitespace character.
pub fn classify_listing(s: &str) -> (r: ListingShape)
    ensures
        r is Array <==> trim_seq(s@).len() > 0 && trim_seq(s@)[0] == '[',
        r is Object <==> trim_seq(s@).len() > 0 && trim_seq(s@)[0] == '{',
{
    let t = trim(s);
    if t.as_str().unicode_len() == 0 {
        return ListingShape::Other;
    }
    let c = t.as_str().get_char(0);
    if c == '[' {
        ListingShape::Array
    } else if c == '{' {
        ListingShape::Object
    } else {
        ListingShape::Other
    }
}

/// The status vocabulary for a vendor status code: zero is ready, one
/// is busy, everything else unknown.
pub open spec fn status_from_code_spec(code: u32) -> Seq<char> {
    if code == 0 {
        "ready"@
    } else if code == 1 {
        "busy"@
    } else {
        "unknown"@
    }
}

/// One printer as the host enumeration reports it, before
/// normalisation.
pub struct RawPrinter {
    /// The queue name.
    pub name: String,
    /// The reported default flag, when the OS gave one.
    pub is_default: Option<bool>,
    /// The vendor status code, when the OS gave one.
    pub status_code: Option<u32>,
}

/// Normalises a vendor status code.
pub fn status_from_code(code: u32) -> (r: String)
    ensures
        r@ == status_from_code_spec(code),
{
    if code == 0 {
        String::from_str("ready")
    } else if code == 1 {
        String::from_str("busy")
    } else {
        String::from_str("unknown")
    }
}

/// Normalises a raw enumeration: a missing default flag means not
/// default, a missing status code means code zero.
pub fn printers_from_raw(raw: &Vec<RawPrinter>) -> (r: Vec<PrinterInfo>)
    ensures
        r@.len() == raw@.len(),
        forall|i: int|
            0 <= i < raw@.len() ==> {
                &&& (#[trigger] r@[i])@.name == raw@[i].name@
                &&& r@[i]@.is_default == (raw@[i].is_default matches Some(true))
                &&& r@[i]@.status == status_from_code_spec(
                    match raw@[i].status_code {
                        Some(c) => c,
                        None => 0,
                    },
                )
            },
{
    let mut r: Vec<PrinterInfo> = Vec::new();
    let mut i: usize = 0;
    while i < raw.len()
        invariant
            i <= raw@.len(),
            r@.len() == i,
            forall|j: int|
                0 <= j < i ==> {
                    &&& (#[trigger] r@[j])@.name == raw@[j].name@
                    &&& r@[j]@.is_default == (raw@[j].is_default matches Some(true))
                    &&& r@[j]@.status == status_from_code_spec(
                        match raw@[j].status_code {
                            Some(c) => c,
                            None => 0,
                        },
                    )
                },
        decreases raw@.len() - i,
    {
        let e = &raw[i];
        let is_default = match e.is_default {
            Some(b) => b,
            None => false,
        };
        let code = match e.status_code {
            Some(c) => c,
            None => 0,
        };
        r.push(PrinterInfo { name: e.name.clone(), is_default, status: status_from_code(code) });
        i += 1;
    }
    r
}

} // verus!
