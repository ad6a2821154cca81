//! The autonym table: display titles for language keys, read from a
//! tab-separated table with the columns `tag3, tag1, name, autonym, source`.
use vstd::prelude::*;

use crate::text::{str_eq, views};

verus! {

/// The field delimiter of the table: a tab.
pub const TAB: u8 = 9;

/// The records that the `csv` crate reads from `text` with the field delimiter
/// `delimiter` and a header row: one entry per record after the header, with
/// its fields, or `None` where the record could not be read.
pub uninterp spec fn delimited_records(text: Seq<char>, delimiter: u8) -> Seq<Option<Seq<Seq<char>>>>;

/// The views of rows as the `csv` reader hands them out.
pub open spec fn rows_view(rows: Seq<Option<Vec<String>>>) -> Seq<Option<Seq<Seq<char>>>> {
    rows.map_values(
        |r: Option<Vec<String>>|
            match r {
                Some(fields) => Some(views(fields@)),
                None => None,
            },
    )
}

/// Relies on `csv::ReaderBuilder` (with `delimiter`, headers on) and
/// `Reader::records`: reads every record after the header row.
#[verifier::external_body]
fn read_delimited(text: &str, delimiter: u8) -> (r: Vec<Option<Vec<String>>>)
    ensures
        rows_view(r@) == delimited_records(text@, delimiter),
{
    let mut reader = csv::ReaderBuilder::new().delimiter(delimiter).from_reader(text.as_bytes());
    reader.records().map(|rec| rec.ok().map(|rec| rec.iter().map(|f| f.to_string()).collect())).collect()
}

/// What one row of the table says of a language.
pub struct AutonymView {
    pub tag3: Seq<char>,
    pub tag1: Option<Seq<char>>,
    pub name: Option<Seq<char>>,
    pub autonym: Option<Seq<char>>,
}

impl AutonymView {
    /// The key of a row: its two-letter tag where it has one, else its three-letter tag.
    pub open spec fn key(self) -> Seq<char> {
        match self.tag1 {
            Some(t) => t,
            None => self.tag3,
        }
    }

    /// The title of a row: its autonym, else its English name, else its three-letter tag.
    pub open spec fn title(self) -> Seq<char> {
        match self.autonym {
            Some(a) => a,
            None => match self.name {
                Some(n) => n,
                None => self.tag3,
            },
        }
    }
}

/// One row of the autonym table.
#[derive(Debug)]
pub struct AutonymRecord {
    pub tag3: String,
    pub tag1: Option<String>,
    pub name: Option<String>,
    pub autonym: Option<String>,
}

pub open spec fn opt_view(o: Option<String>) -> Option<Seq<char>> {
    match o {
        Some(s) => Some(s@),
        None => None,
    }
}

impl View for AutonymRecord {
    type V = AutonymView;

    open spec fn view(&self) -> AutonymView {
        AutonymView {
            tag3: self.tag3@,
            tag1: opt_view(self.tag1),
            name: opt_view(self.name),
            autonym: opt_view(self.autonym),
        }
    }
}

/// Field `i` of a row, where it is present and not empty.
pub open spec fn field_at(fields: Seq<Seq<char>>, i: int) -> Option<Seq<char>> {
    if 0 <= i < fields.len() && fields[i].len() > 0 {
        Some(fields[i])
    } else {
        None
    }
}

/// The record that a row of fields holds.
pub open spec fn record_of(fields: Seq<Seq<char>>) -> AutonymView {
    AutonymView {
        tag3: fields[0],
        tag1: field_at(fields, 1),
        name: field_at(fields, 2),
        autonym: field_at(fields, 3),
    }
}

/// The records of the rows that could be read and have at least one field, in order.
pub open spec fn records_of(rows: Seq<Option<Seq<Seq<char>>>>) -> Seq<AutonymView>
    decreases rows.len(),
{
    if rows.len() == 0 {
        seq![]
    } else {
        let prev = records_of(rows.drop_last());
        match rows.last() {
            Some(fields) => if fields.len() >= 1 {
                prev.push(record_of(fields))
            } else {
                prev
            },
            None => prev,
        }
    }
}

/// The first record whose key is `key`.
pub open spec fn lookup(records: Seq<AutonymView>, key: Seq<char>) -> Option<AutonymView>
    decreases records.len(),
{
    if records.len() == 0 {
        None
    } else if records[0].key() == key {
        Some(records[0])
    } else {
        lookup(records.drop_first(), key)
    }
}

/// The title of `key`: that of its record, or the key itself where none has it.
pub open spec fn title_of(records: Seq<AutonymView>, key: Seq<char>) -> Seq<char> {
    match lookup(records, key) {
        Some(r) => r.title(),
        None => key,
    }
}

/// A table of language records.
#[derive(Debug)]
pub struct AutonymTable {
    pub records: Vec<AutonymRecord>,
}

impl View for AutonymTable {
    type V = Seq<AutonymView>;

    open spec fn view(&self) -> Seq<AutonymView> {
        self.records@.map_values(|r: AutonymRecord| r@)
    }
}

fn field_opt(fields: &Vec<String>, i: usize) -> (r: Option<String>)
    ensures
        opt_view(r) == field_at(views(fields@), i as int),
{
    if i < fields.len() && fields[i].unicode_len() > 0 {
        Some(fields[i].clone())
    } else {
        None
    }
}

impl AutonymTable {
    /// A table with no records: every key is its own title.
    pub fn empty() -> (r: AutonymTable)
        ensures
            r@ == Seq::<AutonymView>::empty(),
    {
        let r = AutonymTable { records: Vec::new() };
        assert(r@ =~= Seq::<AutonymView>::empty());
        r
    }

    /// The table that the rows hold.
    pub fn from_rows(rows: &Vec<Option<Vec<String>>>) -> (r: AutonymTable)
        ensures
            r@ == records_of(rows_view(rows@)),
    {
        let mut records: Vec<AutonymRecord> = Vec::new();
        let mut i: usize = 0;
        while i < rows.len()
            invariant
                i <= rows@.len(),
                records@.map_values(|r: AutonymRecord| r@) == records_of(
                    rows_view(rows@).take(i as int),
                ),
            decreases rows@.len() - i,
        {
            let ghost before = records@;
            assert(rows_view(rows@).take(i + 1).drop_last() =~= rows_view(rows@).take(i as int));
            match &rows[i] {
                Some(fields) => {
                    if fields.len() >= 1 {
                        let rec = AutonymRecord {
                            tag3: fields[0].clone(),
                            tag1: field_opt(fields, 1),
                            name: field_opt(fields, 2),
                            autonym: field_opt(fields, 3),
                        };
                        proof {
                            assert(rec@ == record_of(views(fields@)));
                        }
                        records.push(rec);
                        assert(records@.map_values(|r: AutonymRecord| r@) =~= before.map_values(
                            |r: AutonymRecord| r@,
                        ).push(rec@));
                    }
                },
                None => {},
            }
            i = i + 1;
        }
        assert(rows_view(rows@).take(i as int) =~= rows_view(rows@));
        AutonymTable { records }
    }

    /// Reads a tab-separated table whose first row names the columns.
    pub fn from_tsv(text: &str) -> (r: AutonymTable)
        ensures
            r@ == records_of(delimited_records(text@, TAB)),
    {
        let rows = read_delimited(text, TAB);
        AutonymTable::from_rows(&rows)
    }

    /// The title to show for the language `key`.
    pub fn title(&self, key: &str) -> (r: String)
        ensures
            r@ == title_of(self@, key@),
    {
        let n = self.records.len();
        let mut i: usize = 0;
        assert(self@.subrange(0, n as int) =~= self@);
        while i < n
            invariant
                n == self.records@.len(),
                i <= n,
                lookup(self@.subrange(i as int, n as int), key@) == lookup(self@, key@),
            decreases n - i,
        {
            let rec = &self.records[i];
            let k = match &rec.tag1 {
                Some(t) => t.as_str(),
                None => rec.tag3.as_str(),
            };
            assert(self@.subrange(i as int, n as int)[0] == rec@);
            if str_eq(k, key) {
                return match &rec.autonym {
                    Some(a) => a.clone(),
                    None => match &rec.name {
                        Some(nm) => nm.clone(),
                        None => rec.tag3.clone(),
                    },
                };
            }
            assert(self@.subrange(i as int, n as int).drop_first() =~= self@.subrange(
                i + 1,
                n as int,
            ));
            i = i + 1;
        }
        String::from_str(key)
    }
}

} // verus!
