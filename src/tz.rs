//! Time-zone lookup by two- or three-letter country code or by country name.

use vstd::prelude::*;
use crate::random::pick;
use crate::text::{chars_of, push_all, split_on, split_text, string_of, views};
use crate::tz_data::TZ_CSV;

verus! {

/// csv's error type, carried through without being read.
#[verifier::external_type_specification]
#[verifier::external_body]
pub struct ExCsvError(csv::Error);

/// The records (fields of each row after the header) that csv reads from a
/// text, or `None` when it reports an error.
pub uninterp spec fn csv_records(text: Seq<char>) -> Option<Seq<Seq<Seq<char>>>>;

/// Relies on csv's `Reader::from_reader` and `Reader::records`: the first row
/// is the header, each later record is read into its fields; an error stops the read.
#[verifier::external_body]
fn read_csv_records(text: &str) -> (r: Result<Vec<Vec<String>>, csv::Error>)
    ensures
        r is Ok <==> csv_records(text@) is Some,
        r matches Ok(rows) ==> rows@.len() == csv_records(text@)->0.len() && forall|i: int|
            0 <= i < rows@.len() ==> views((#[trigger] rows@[i])@) == csv_records(text@)->0[i],
{
    csv::Reader::from_reader(text.as_bytes())
        .records()
        .map(|rec| rec.map(|fields| fields.iter().map(|f| f.to_string()).collect()))
        .collect()
}

/// A country with its codes, capital and time zones.
#[derive(Clone, Debug, PartialEq, Eq, Hash)]
pub struct Tz {
    pub alpha_2_code: String,
    pub alpha_3_code: String,
    pub continent: String,
    pub capital: String,
    pub name: String,
    pub timezones: Vec<String>,
}

pub struct TzView {
    pub alpha_2_code: Seq<char>,
    pub alpha_3_code: Seq<char>,
    pub continent: Seq<char>,
    pub capital: Seq<char>,
    pub name: Seq<char>,
    pub timezones: Seq<Seq<char>>,
}

impl View for Tz {
    type V = TzView;

    open spec fn view(&self) -> TzView {
        TzView {
            alpha_2_code: self.alpha_2_code@,
            alpha_3_code: self.alpha_3_code@,
            continent: self.continent@,
            capital: self.capital@,
            name: self.name@,
            timezones: views(self.timezones@),
        }
    }
}

/// The parts joined with `sep` between neighbours.
pub open spec fn joined(parts: Seq<Seq<char>>, sep: char) -> Seq<char>
    decreases parts.len(),
{
    if parts.len() == 0 {
        Seq::empty()
    } else if parts.len() == 1 {
        parts[0]
    } else {
        joined(parts.drop_last(), sep) + seq![sep] + parts.last()
    }
}

/// The record that a row of six fields stands for.
pub open spec fn record_of(row: Seq<Seq<char>>) -> TzView {
    TzView {
        alpha_2_code: row[0],
        alpha_3_code: row[1],
        continent: row[2],
        capital: row[3],
        name: row[4],
        timezones: split_on(row[5], ','),
    }
}

/// The records of a table whose rows all have six fields.
pub open spec fn records_of(rows: Seq<Seq<Seq<char>>>) -> Option<Seq<TzView>> {
    if forall|i: int| 0 <= i < rows.len() ==> (#[trigger] rows[i]).len() == 6 {
        Some(rows.map_values(|row: Seq<Seq<char>>| record_of(row)))
    } else {
        None
    }
}

/// The message of a table that cannot be read.
pub open spec fn table_error_text() -> Seq<char> {
    "Error: Not a valid tz csv file."@
}

/// The message of a lookup whose table cannot be read.
pub open spec fn query_error_text() -> Seq<char> {
    "Error: "@ + table_error_text()
}

fn table_error() -> (r: String)
    ensures
        r@ == table_error_text(),
{
    String::from_str("Error: Not a valid tz csv file.")
}

/// The message `e` with the lookup's `Error: ` prefix.
fn prefixed(e: &String) -> (r: String)
    ensures
        r@ == "Error: "@ + e@,
{
    String::from_str("Error: ").concat(e.as_str())
}

/// The records of the bundled table, or `None` when it cannot be read.
pub open spec fn dataset() -> Option<Seq<TzView>> {
    match csv_records(TZ_CSV@) {
        Some(rows) => records_of(rows),
        None => None,
    }
}

/// `c` with an ASCII capital letter turned into small.
pub open spec fn ascii_lower(c: char) -> char {
    if 'A' <= c <= 'Z' {
        (((c as u32) + 32) as u8) as char
    } else {
        c
    }
}

/// Equality up to ASCII case.
pub open spec fn same_ignoring_case(a: Seq<char>, b: Seq<char>) -> bool {
    a.len() == b.len() && forall|i: int| 0 <= i < a.len() ==> #[trigger] ascii_lower(a[i]) == ascii_lower(b[i])
}

/// A query of `qlen` bytes matches the two-letter code, the three-letter code,
/// or for any other length the country name.
pub open spec fn record_matches(t: TzView, q: Seq<char>, qlen: nat) -> bool {
    if qlen == 2 {
        same_ignoring_case(t.alpha_2_code, q)
    } else if qlen == 3 {
        same_ignoring_case(t.alpha_3_code, q)
    } else {
        same_ignoring_case(t.name, q)
    }
}

/// The comma-joined zones of every matching record, one after the other.
pub open spec fn found_text(ts: Seq<TzView>, q: Seq<char>, qlen: nat) -> Seq<char>
    decreases ts.len(),
{
    if ts.len() == 0 {
        Seq::empty()
    } else {
        found_text(ts.drop_last(), q, qlen) + if record_matches(ts.last(), q, qlen) {
            joined(ts.last().timezones, ',')
        } else {
            Seq::empty()
        }
    }
}

/// The answer to a query: the zones found, or `None` when nothing was found.
pub open spec fn lookup_spec(ts: Seq<TzView>, q: Seq<char>, qlen: nat) -> Option<Seq<char>> {
    let t = found_text(ts, q, qlen);
    if t.len() == 0 { None } else { Some(t) }
}

pub open spec fn opt_view(o: Option<String>) -> Option<Seq<char>> {
    match o {
        Some(s) => Some(s@),
        None => None,
    }
}

/// The fields of each row as character sequences.
pub open spec fn rows_view(rows: Seq<Vec<String>>) -> Seq<Seq<Seq<char>>> {
    rows.map_values(|row: Vec<String>| views(row@))
}

pub open spec fn tz_views(v: Seq<Tz>) -> Seq<TzView> {
    v.map_values(|t: Tz| t@)
}

/// The zones joined with commas.
fn join_commas(parts: &Vec<String>) -> (r: Vec<char>)
    ensures
        r@ == joined(views(parts@), ','),
{
    let mut out: Vec<char> = Vec::new();
    let mut i: usize = 0;
    while i < parts.len()
        invariant
            i <= parts@.len(),
            out@ == joined(views(parts@).subrange(0, i as int), ','),
        decreases parts@.len() - i,
    {
        let ghost pre = views(parts@).subrange(0, i as int);
        let ghost now = views(parts@).subrange(0, i + 1);
        assert(now.drop_last() == pre);
        assert(now.last() == parts@[i as int]@);
        if i > 0 {
            out.push(',');
        }
        let piece = chars_of(parts[i].as_str());
        push_all(&mut out, &piece);
        i += 1;
    }
    assert(views(parts@).subrange(0, parts@.len() as int) == views(parts@));
    out
}

/// Equality of two character vectors up to ASCII case.
fn eq_ignore_case(a: &Vec<char>, b: &Vec<char>) -> (r: bool)
    ensures
        r == same_ignoring_case(a@, b@),
{
    if a.len() != b.len() {
        return false;
    }
    let mut i: usize = 0;
    while i < a.len()
        invariant
            i <= a@.len() == b@.len(),
            forall|j: int| 0 <= j < i ==> #[trigger] ascii_lower(a@[j]) == ascii_lower(b@[j]),
        decreases a@.len() - i,
    {
        let x = a[i];
        let y = b[i];
        let lx = if 'A' <= x && x <= 'Z' { (((x as u32) + 32) as u8) as char } else { x };
        let ly = if 'A' <= y && y <= 'Z' { (((y as u32) + 32) as u8) as char } else { y };
        assert(lx == ascii_lower(x));
        assert(ly == ascii_lower(y));
        if lx != ly {
            return false;
        }
        i += 1;
    }
    true
}

impl Tz {
    /// The record that a row of six fields stands for.
    fn from_row(row: &Vec<String>) -> (r: Tz)
        requires
            row@.len() == 6,
        ensures
            r@ == record_of(views(row@)),
    {
        Tz {
            alpha_2_code: row[0].clone(),
            alpha_3_code: row[1].clone(),
            continent: row[2].clone(),
            capital: row[3].clone(),
            name: row[4].clone(),
            timezones: split_text(row[5].as_str(), ','),
        }
    }

    /// A copy of the record.
    pub fn duplicate(&self) -> (r: Tz)
        ensures
            r@ == self@,
    {
        let mut zones: Vec<String> = Vec::new();
        let mut i: usize = 0;
        while i < self.timezones.len()
            invariant
                i <= self.timezones@.len(),
                views(zones@) == views(self.timezones@).subrange(0, i as int),
            decreases self.timezones@.len() - i,
        {
            let ghost before = views(zones@);
            zones.push(self.timezones[i].clone());
            assert(views(zones@) =~= before.push(self.timezones@[i as int]@));
            assert(views(self.timezones@).subrange(0, i + 1) =~= views(self.timezones@).subrange(0, i as int).push(self.timezones@[i as int]@));
            i += 1;
        }
        assert(views(self.timezones@).subrange(0, self.timezones@.len() as int) == views(self.timezones@));
        Tz {
            alpha_2_code: self.alpha_2_code.clone(),
            alpha_3_code: self.alpha_3_code.clone(),
            continent: self.continent.clone(),
            capital: self.capital.clone(),
            name: self.name.clone(),
            timezones: zones,
        }
    }

    /// The records of a table's rows; fails unless every row has six fields.
    pub fn from_rows(rows: &Vec<Vec<String>>) -> (r: Result<Vec<Tz>, String>)
        ensures
            r is Ok <==> records_of(rows_view(rows@)) is Some,
            r matches Ok(v) ==> tz_views(v@) == records_of(rows_view(rows@))->0,
            r matches Err(e) ==> e@ == table_error_text(),
    {
        let ghost table = rows_view(rows@);
        let mut out: Vec<Tz> = Vec::new();
        let mut i: usize = 0;
        while i < rows.len()
            invariant
                i <= rows@.len() == table.len(),
                table == rows_view(rows@),
                forall|j: int| 0 <= j < i ==> (#[trigger] table[j]).len() == 6,
                tz_views(out@) == table.subrange(0, i as int).map_values(|row: Seq<Seq<char>>| record_of(row)),
            decreases rows@.len() - i,
        {
            let row = &rows[i];
            assert(table[i as int] == views(row@));
            if row.len() != 6 {
                assert(table[i as int].len() != 6);
                assert(!(forall|j: int| 0 <= j < table.len() ==> (#[trigger] table[j]).len() == 6));
                return Err(table_error());
            }
            let t = Tz::from_row(row);
            let ghost before = tz_views(out@);
            out.push(t);
            assert(tz_views(out@) =~= before.push(t@));
            assert(table.subrange(0, i + 1).map_values(|row: Seq<Seq<char>>| record_of(row)) =~= table.subrange(0, i as int).map_values(|row: Seq<Seq<char>>| record_of(row)).push(record_of(table[i as int])));
            i += 1;
        }
        assert(table.subrange(0, table.len() as int) == table);
        Ok(out)
    }

    /// Loads the bundled table.
    pub fn load() -> (r: Result<Vec<Tz>, String>)
        ensures
            r is Ok <==> dataset() is Some,
            r matches Ok(v) ==> tz_views(v@) == dataset()->0,
            r matches Err(e) ==> e@ == table_error_text(),
    {
        read_from_tz()
    }

    /// The zones of every record that `q` matches, comma-joined, one record
    /// after the other; `None` when no record matches.
    pub fn tz_lookup(records: &Vec<Tz>, q: &str) -> (r: Option<String>)
        ensures
            opt_view(r) == lookup_spec(tz_views(records@), q@, q.len() as nat),
    {
        let qlen = q.len();
        let qc = chars_of(q);
        let mut out: Vec<char> = Vec::new();
        let mut i: usize = 0;
        while i < records.len()
            invariant
                i <= records@.len(),
                qc@ == q@,
                qlen == q.len(),
                out@ == found_text(tz_views(records@).subrange(0, i as int), q@, qlen as nat),
            decreases records@.len() - i,
        {
            let t = &records[i];
            let ghost pre = tz_views(records@).subrange(0, i as int);
            let ghost now = tz_views(records@).subrange(0, i + 1);
            assert(now.drop_last() =~= pre);
            assert(now.last() == t@);
            let field = if qlen == 2 {
                chars_of(t.alpha_2_code.as_str())
            } else if qlen == 3 {
                chars_of(t.alpha_3_code.as_str())
            } else {
                chars_of(t.name.as_str())
            };
            if eq_ignore_case(&field, &qc) {
                let zones = join_commas(&t.timezones);
                push_all(&mut out, &zones);
            } else {
                assert(out@ + Seq::<char>::empty() =~= out@);
            }
            i += 1;
        }
        assert(tz_views(records@).subrange(0, records@.len() as int) =~= tz_views(records@));
        if out.len() == 0 {
            None
        } else {
            Some(string_of(&out))
        }
    }

    /// Looks up the bundled table; fails only when the table cannot be read.
    pub fn tz_query(q: &str) -> (r: Result<Option<String>, String>)
        ensures
            r is Err <==> dataset() is None,
            r matches Ok(o) ==> opt_view(o) == lookup_spec(dataset()->0, q@, q.len() as nat),
            r matches Err(e) ==> e@ == query_error_text(),
    {
        match Self::load() {
            Ok(records) => Ok(Self::tz_lookup(&records, q)),
            Err(e) => Err(prefixed(&e)),
        }
    }

    /// The time zones of the country with the two- or three-letter ISO code `iso_code`.
    pub fn tz_by_iso_code(iso_code: &str) -> (r: Result<Option<String>, String>)
        ensures
            r is Err <==> dataset() is None,
            r matches Ok(o) ==> opt_view(o) == lookup_spec(dataset()->0, iso_code@, iso_code.len() as nat),
            r matches Err(e) ==> e@ == query_error_text(),
    {
        Self::tz_query(iso_code)
    }

    /// The time zones of the country named `country_name`.
    pub fn tz_by_country(country_name: &str) -> (r: Result<Option<String>, String>)
        ensures
            r is Err <==> dataset() is None,
            r matches Ok(o) ==> opt_view(o) == lookup_spec(dataset()->0, country_name@, country_name.len() as nat),
            r matches Err(e) ==> e@ == query_error_text(),
    {
        Self::tz_query(country_name)
    }

    /// A record drawn at random from the bundled table.
    pub fn get_random_tz() -> (r: Result<Tz, String>)
        ensures
            r is Err <==> (dataset() is None || dataset()->0.len() == 0),
            r matches Err(e) ==> dataset() is None ==> e@ == query_error_text(),
            r matches Ok(t) ==> dataset()->0.contains(t@),
    {
        let records = match Self::load() {
            Ok(t) => t,
            Err(e) => return Err(prefixed(&e)),
        };
        if records.len() == 0 {
            return Err(String::from_str("Error: the timezone table is empty"));
        }
        let chosen = pick(&records);
        let ghost k = choose|k: int| 0 <= k < records@.len() && records@[k] == *chosen;
        let t = chosen.duplicate();
        assert(tz_views(records@)[k] == t@);
        Ok(t)
    }
}

/// Reads the bundled table into records.
pub fn read_from_tz() -> (r: Result<Vec<Tz>, String>)
    ensures
        r is Ok <==> dataset() is Some,
        r matches Ok(v) ==> tz_views(v@) == dataset()->0,
        r matches Err(e) ==> e@ == table_error_text(),
{
    match read_csv_records(TZ_CSV) {
        Ok(rows) => {
            let ghost table = csv_records(TZ_CSV@)->0;
            assert(rows_view(rows@) =~= table);
            Tz::from_rows(&rows)
        },
        Err(_) => Err(table_error()),
    }
}

} // verus!
