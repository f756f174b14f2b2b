//! A stand-in for the Ladybug client: a connection that holds its database path,
//! statements that return no rows, result rows keyed by column, and the conversions of
//! column text into values.
use vstd::prelude::*;
use vstd::hash_map::StringHashMap;

use crate::canvas::opt_str;
use crate::model::{cat, opt_view, own};
use crate::text::{chars_of, decimal, decimal_int, fmt_i64, fmt_usize, string_of};

verus! {

/// An error of the client.
#[derive(Debug)]
pub struct Error {
    msg: String,
}

impl Error {
    /// An error with the given message.
    pub fn new(msg: String) -> (r: Error)
        ensures
            r.message_view() == msg@,
    {
        Error { msg }
    }

    /// The message of this error.
    pub closed spec fn message_view(&self) -> Seq<char> {
        self.msg@
    }

    /// The message of this error.
    pub fn message(&self) -> (r: &str)
        ensures
            r@ == self.message_view(),
    {
        self.msg.as_str()
    }
}

/// Values that can be query parameters.
pub trait ToSql {
    /// The text of the value.
    spec fn sql_text(&self) -> Seq<char>;

    /// The text of the value.
    fn to_sql(&self) -> (r: String)
        ensures
            r@ == self.sql_text(),
    ;
}

impl ToSql for String {
    open spec fn sql_text(&self) -> Seq<char> {
        self@
    }

    fn to_sql(&self) -> (r: String) {
        own(self.as_str())
    }
}

impl ToSql for i64 {
    open spec fn sql_text(&self) -> Seq<char> {
        decimal_int(*self as int)
    }

    fn to_sql(&self) -> (r: String) {
        string_of(&fmt_i64(*self))
    }
}

impl ToSql for i32 {
    open spec fn sql_text(&self) -> Seq<char> {
        decimal_int(*self as int)
    }

    fn to_sql(&self) -> (r: String) {
        string_of(&fmt_i64(*self as i64))
    }
}

/// Value of a decimal digit character.
pub open spec fn digit_value(c: char) -> int {
    c as int - '0' as int
}

/// The outcome of reading the digits `s` onto `acc`, towards negative numbers when `neg`:
/// the value, or the message of the first problem met from the left (a non-digit, or the
/// value leaving `[min, max]`).
pub open spec fn read_digits(s: Seq<char>, acc: int, neg: bool, min: int, max: int) -> Result<
    int,
    Seq<char>,
>
    decreases s.len(),
{
    if s.len() == 0 {
        Ok(acc)
    } else if !('0' <= s[0] && s[0] <= '9') {
        Err("invalid digit found in string"@)
    } else {
        let next = if neg {
            acc * 10 - digit_value(s[0])
        } else {
            acc * 10 + digit_value(s[0])
        };
        if next > max {
            Err("number too large to fit in target type"@)
        } else if next < min {
            Err("number too small to fit in target type"@)
        } else {
            read_digits(s.drop_first(), next, neg, min, max)
        }
    }
}

/// A signed integer in `[min, max]` as `str::parse` reads it: an optional sign, then
/// digits; the error message of `ParseIntError` otherwise.
pub open spec fn parse_signed(s: Seq<char>, min: int, max: int) -> Result<int, Seq<char>> {
    if s.len() == 0 {
        Err("cannot parse integer from empty string"@)
    } else if s[0] == '+' || s[0] == '-' {
        if s.len() == 1 {
            Err("invalid digit found in string"@)
        } else {
            read_digits(s.drop_first(), 0, s[0] == '-', min, max)
        }
    } else {
        read_digits(s, 0, false, min, max)
    }
}

proof fn lemma_read_digits_bounds(s: Seq<char>, acc: int, neg: bool, min: int, max: int)
    requires
        min <= acc <= max,
    ensures
        read_digits(s, acc, neg, min, max) matches Ok(v) ==> min <= v <= max,
    decreases s.len(),
{
    if s.len() > 0 && '0' <= s[0] && s[0] <= '9' {
        let next = if neg {
            acc * 10 - digit_value(s[0])
        } else {
            acc * 10 + digit_value(s[0])
        };
        if min <= next <= max {
            lemma_read_digits_bounds(s.drop_first(), next, neg, min, max);
        }
    }
}

fn parse_signed_exec(s: &str, min: i64, max: i64) -> (r: Result<i64, String>)
    requires
        min <= 0 <= max,
    ensures
        match parse_signed(s@, min as int, max as int) {
            Ok(v) => r matches Ok(x) && x == v,
            Err(m) => r matches Err(e) && e@ == m,
        },
{
    let v = chars_of(s);
    if v.len() == 0 {
        return Err(own("cannot parse integer from empty string"));
    }
    let mut neg = false;
    let mut start: usize = 0;
    if v[0] == '+' || v[0] == '-' {
        if v.len() == 1 {
            return Err(own("invalid digit found in string"));
        }
        neg = v[0] == '-';
        start = 1;
    }
    let ghost d = v@.skip(start as int);
    assert(start == 1 ==> d =~= s@.drop_first());
    assert(start == 0 ==> d =~= s@);
    assert(parse_signed(s@, min as int, max as int) == read_digits(d, 0, neg, min as int, max as int));
    let mut acc: i64 = 0;
    let mut i: usize = start;
    while i < v.len()
        invariant
            start <= i <= v@.len(),
            d == v@.skip(start as int),
            parse_signed(s@, min as int, max as int) == read_digits(d, 0, neg, min as int, max as int),
            min <= acc <= max,
            min <= 0 <= max,
            read_digits(d, 0, neg, min as int, max as int) == read_digits(
                v@.skip(i as int),
                acc as int,
                neg,
                min as int,
                max as int,
            ),
        decreases v@.len() - i,
    {
        let c = v[i];
        let ghost rest = v@.skip(i as int);
        assert(rest[0] == c);
        assert(rest.drop_first() =~= v@.skip(i + 1));
        if c < '0' || c > '9' {
            return Err(own("invalid digit found in string"));
        }
        let dv: i64 = ((c as u32) - ('0' as u32)) as i64;
        let next: i128 = if neg {
            acc as i128 * 10 - dv as i128
        } else {
            acc as i128 * 10 + dv as i128
        };
        if next > max as i128 {
            return Err(own("number too large to fit in target type"));
        }
        if next < min as i128 {
            return Err(own("number too small to fit in target type"));
        }
        acc = next as i64;
        i = i + 1;
    }
    assert(v@.skip(i as int) =~= Seq::<char>::empty());
    Ok(acc)
}

/// The `Debug` text of an optional string, as `format!("{:?}", value)` writes it.
pub uninterp spec fn debug_text(value: Option<Seq<char>>) -> Seq<char>;

/// `format!("{:?}", value)` for an optional string: `None`, or `Some(` and the quoted,
/// escaped string and `)`. The escaping is std's and is named, not restated.
#[verifier::external_body]
fn debug_option_str(value: Option<&str>) -> (r: String)
    ensures
        r@ == debug_text(opt_str(value)),
{
    format!("{:?}", value)
}

/// Column text that can be read as a value.
pub trait FromSql: Sized {
    /// Whether the column text (`None` for null) reads as a value.
    spec fn accepts(value: Option<Seq<char>>) -> bool;

    /// Whether `v` is the value read from the column text.
    spec fn decoded(value: Option<Seq<char>>, v: Self) -> bool;

    /// The message of a column text that does not read.
    spec fn error_text(value: Option<Seq<char>>) -> Seq<char>;

    /// Reads a value from column text.
    fn from_sql(value: Option<&str>) -> (r: Result<Self, Error>)
        ensures
            match r {
                Ok(v) => Self::accepts(opt_str(value)) && Self::decoded(opt_str(value), v),
                Err(e) => !Self::accepts(opt_str(value)) && e.message_view() == Self::error_text(
                    opt_str(value),
                ),
            },
    ;
}

impl FromSql for String {
    open spec fn accepts(value: Option<Seq<char>>) -> bool {
        value is Some
    }

    open spec fn decoded(value: Option<Seq<char>>, v: String) -> bool {
        value == Some(v@)
    }

    open spec fn error_text(value: Option<Seq<char>>) -> Seq<char> {
        "NULL value for String"@
    }

    fn from_sql(value: Option<&str>) -> (r: Result<String, Error>) {
        match value {
            Some(s) => Ok(own(s)),
            None => Err(Error::new(own("NULL value for String"))),
        }
    }
}

impl FromSql for i64 {
    open spec fn accepts(value: Option<Seq<char>>) -> bool {
        value matches Some(s) && parse_signed(s, i64::MIN as int, i64::MAX as int) is Ok
    }

    open spec fn decoded(value: Option<Seq<char>>, v: i64) -> bool {
        value matches Some(s) && parse_signed(s, i64::MIN as int, i64::MAX as int) == Ok::<
            int,
            Seq<char>,
        >(v as int)
    }

    open spec fn error_text(value: Option<Seq<char>>) -> Seq<char> {
        match value {
            None => "NULL value for i64"@,
            Some(s) => "parse i64: "@ + parse_signed(s, i64::MIN as int, i64::MAX as int)->Err_0,
        }
    }

    fn from_sql(value: Option<&str>) -> (r: Result<i64, Error>) {
        match value {
            None => Err(Error::new(own("NULL value for i64"))),
            Some(s) => match parse_signed_exec(s, i64::MIN, i64::MAX) {
                Ok(v) => Ok(v),
                Err(m) => Err(Error::new(cat("parse i64: ", m.as_str()))),
            },
        }
    }
}

impl FromSql for i32 {
    open spec fn accepts(value: Option<Seq<char>>) -> bool {
        value matches Some(s) && parse_signed(s, i32::MIN as int, i32::MAX as int) is Ok
    }

    open spec fn decoded(value: Option<Seq<char>>, v: i32) -> bool {
        value matches Some(s) && parse_signed(s, i32::MIN as int, i32::MAX as int) == Ok::<
            int,
            Seq<char>,
        >(v as int)
    }

    open spec fn error_text(value: Option<Seq<char>>) -> Seq<char> {
        match value {
            None => "NULL value for i32"@,
            Some(s) => "parse i32: "@ + parse_signed(s, i32::MIN as int, i32::MAX as int)->Err_0,
        }
    }

    fn from_sql(value: Option<&str>) -> (r: Result<i32, Error>) {
        match value {
            None => Err(Error::new(own("NULL value for i32"))),
            Some(s) => match parse_signed_exec(s, i32::MIN as i64, i32::MAX as i64) {
                Ok(v) => {
                    proof {
                        lemma_read_digits_bounds(s@, 0, false, i32::MIN as int, i32::MAX as int);
                        if s@.len() > 0 && (s@[0] == '+' || s@[0] == '-') && s@.len() > 1 {
                            lemma_read_digits_bounds(
                                s@.drop_first(),
                                0,
                                s@[0] == '-',
                                i32::MIN as int,
                                i32::MAX as int,
                            );
                        }
                    }
                    Ok(v as i32)
                },
                Err(m) => Err(Error::new(cat("parse i32: ", m.as_str()))),
            },
        }
    }
}

/// The value of a boolean column text: `true`, `1` or `t`; `false`, `0` or `f`.
pub open spec fn bool_of(value: Option<Seq<char>>) -> Option<bool> {
    match value {
        Some(s) => if s == "true"@ || s == "1"@ || s == "t"@ {
            Some(true)
        } else if s == "false"@ || s == "0"@ || s == "f"@ {
            Some(false)
        } else {
            None
        },
        None => None,
    }
}

impl FromSql for bool {
    open spec fn accepts(value: Option<Seq<char>>) -> bool {
        bool_of(value) is Some
    }

    open spec fn decoded(value: Option<Seq<char>>, v: bool) -> bool {
        bool_of(value) == Some(v)
    }

    open spec fn error_text(value: Option<Seq<char>>) -> Seq<char> {
        "invalid boolean: "@ + debug_text(value)
    }

    fn from_sql(value: Option<&str>) -> (r: Result<bool, Error>) {
        match value {
            Some(s) => {
                if crate::text::str_eq(s, "true") || crate::text::str_eq(s, "1")
                    || crate::text::str_eq(s, "t") {
                    return Ok(true);
                }
                if crate::text::str_eq(s, "false") || crate::text::str_eq(s, "0")
                    || crate::text::str_eq(s, "f") {
                    return Ok(false);
                }
            },
            None => {},
        }
        Err(Error::new(cat("invalid boolean: ", debug_option_str(value).as_str())))
    }
}

/// Whether a path names something on disk (`std::path::Path::exists`). Nothing is
/// promised of the answer: it depends on the file system.
#[verifier::external_body]
fn path_exists(path: &str) -> (r: bool) {
    std::path::Path::new(path).exists()
}

/// A connection to a database file.
#[derive(Debug, Clone)]
pub struct Connection {
    db_path: String,
}

impl Connection {
    /// The path of the database.
    pub closed spec fn path_view(&self) -> Seq<char> {
        self.db_path@
    }

    /// Opens the database at `path` given whether it exists: a connection to `path` when
    /// it does, else the not-found error.
    pub fn open_if_exists(path: &str, exists: bool) -> (r: Result<Connection, Error>)
        ensures
            exists ==> (r matches Ok(c) && c.path_view() == path@),
            !exists ==> (r matches Err(e) && e.message_view() == "LadybugDB not found at: "@ + path@),
    {
        if !exists {
            return Err(Error::new(cat("LadybugDB not found at: ", path)));
        }
        Ok(Connection { db_path: own(path) })
    }

    /// Opens the database at `path`, which must exist; whether it does is asked of the
    /// file system.
    pub fn open(path: &str) -> (r: Result<Connection, Error>)
        ensures
            match r {
                Ok(c) => c.path_view() == path@,
                Err(e) => e.message_view() == "LadybugDB not found at: "@ + path@,
            },
    {
        Connection::open_if_exists(path, path_exists(path))
    }

    /// The path of the database.
    pub fn path(&self) -> (r: &str)
        ensures
            r@ == self.path_view(),
    {
        self.db_path.as_str()
    }

    /// Prepares a statement.
    pub fn prepare(&self, sql: &str) -> (r: Result<Statement, Error>)
        ensures
            r matches Ok(st) && st.sql_view() == sql@,
    {
        Ok(Statement { sql: own(sql) })
    }
}

/// A prepared statement.
#[derive(Debug, Clone)]
pub struct Statement {
    sql: String,
}

impl Statement {
    /// The text of the statement.
    pub closed spec fn sql_view(&self) -> Seq<char> {
        self.sql@
    }

    /// Runs the statement and maps each row through `f`: this client holds no rows, so
    /// the result is always empty.
    pub fn query_map<T, F>(&mut self, params: &[String], f: F) -> (r: Result<Vec<T>, Error>) where
        F: Fn(&Row) -> Result<T, Error>,

        ensures
            r matches Ok(v) && v@.len() == 0,
            final(self).sql_view() == old(self).sql_view(),
    {
        Ok(Vec::new())
    }
}

/// A result row: its columns in order and each column's text (`None` for null).
pub struct Row {
    values: StringHashMap<Option<String>>,
    columns: Vec<String>,
    cells: Vec<Option<String>>,
}

/// The column map of a row built from `columns` and `values` paired in order (as far as
/// the shorter goes), a later column replacing an earlier one of the same name.
pub open spec fn row_map(columns: Seq<Seq<char>>, values: Seq<Option<Seq<char>>>) -> Map<
    Seq<char>,
    Option<Seq<char>>,
>
    decreases columns.len(),
{
    if columns.len() == 0 || values.len() == 0 {
        Map::empty()
    } else {
        let n = if columns.len() < values.len() {
            columns.len()
        } else {
            values.len()
        };
        row_map(columns.take(n - 1), values.take(n - 1)).insert(columns[n - 1], values[n - 1])
    }
}

/// Mathematical value of optional strings.
pub open spec fn opts_view(v: Seq<Option<String>>) -> Seq<Option<Seq<char>>> {
    v.map_values(|o: Option<String>| opt_view(o))
}

impl Row {
    /// The column names of the row.
    pub closed spec fn columns_view(&self) -> Seq<Seq<char>> {
        self.columns@.map_values(|c: String| c@)
    }

    /// The value of each column, in column order.
    pub closed spec fn cells_view(&self) -> Seq<Option<Seq<char>>> {
        opts_view(self.cells@)
    }

    /// The text at zero-based position `idx`: `None` when null or when the row has no
    /// value there.
    pub open spec fn cell(&self, idx: int) -> Option<Seq<char>> {
        if 0 <= idx < self.cells_view().len() {
            self.cells_view()[idx]
        } else {
            None
        }
    }

    /// The text of each named column.
    pub closed spec fn values_view(&self) -> Map<Seq<char>, Option<Seq<char>>> {
        Map::new(
            |k: Seq<char>| self.values@.contains_key(k),
            |k: Seq<char>| opt_view(self.values@[k]),
        )
    }

    /// A row of `columns` with `values` paired to them in order.
    pub fn new(columns: Vec<String>, values: Vec<Option<String>>) -> (r: Row)
        ensures
            r.columns_view() == columns@.map_values(|c: String| c@),
            r.values_view() == row_map(columns@.map_values(|c: String| c@), opts_view(values@)),
            r.cells_view() == opts_view(values@),
    {
        let ghost cv = columns@.map_values(|c: String| c@);
        let ghost vv = opts_view(values@);
        let n = if columns.len() < values.len() {
            columns.len()
        } else {
            values.len()
        };
        let mut map: StringHashMap<Option<String>> = StringHashMap::new();
        let mut i: usize = 0;
        while i < n
            invariant
                n <= columns@.len(),
                n <= values@.len(),
                i <= n,
                cv == columns@.map_values(|c: String| c@),
                vv == opts_view(values@),
                Map::new(|k: Seq<char>| map@.contains_key(k), |k: Seq<char>| opt_view(map@[k]))
                    == row_map(cv.take(i as int), vv.take(i as int)),
            decreases n - i,
        {
            let ghost before = map@;
            let v = match &values[i] {
                Some(s) => Some(own(s.as_str())),
                None => None,
            };
            map.insert(own(columns[i].as_str()), v);
            proof {
                let ct = cv.take(i + 1);
                let vt = vv.take(i + 1);
                assert(ct.take(i as int) =~= cv.take(i as int));
                assert(vt.take(i as int) =~= vv.take(i as int));
                assert(ct[i as int] == columns@[i as int]@);
                assert(vt[i as int] == opt_view(values@[i as int]));
                assert(Map::new(|k: Seq<char>| map@.contains_key(k), |k: Seq<char>| opt_view(map@[k]))
                    =~= row_map(ct, vt));
            }
            i = i + 1;
        }
        proof {
            if n == columns@.len() {
                assert(cv.take(n as int) =~= cv);
            } else {
                assert(vv.take(n as int) =~= vv);
            }
            lemma_row_map_trim(cv, vv);
        }
        Row { values: map, columns, cells: values }
    }

    /// The text of column `name`: `None` when the column is null or missing.
    pub open spec fn lookup(&self, name: Seq<char>) -> Option<Seq<char>> {
        if self.values_view().contains_key(name) {
            self.values_view()[name]
        } else {
            None
        }
    }

    /// Reads the value at zero-based position `idx` as a `T`; a position past the
    /// columns is an error.
    pub fn get<T: FromSql>(&self, idx: usize) -> (r: Result<T, Error>)
        ensures
            idx >= self.columns_view().len() ==> (r matches Err(e) && e.message_view()
                == "column index "@ + decimal(idx as nat) + " out of bounds"@),
            idx < self.columns_view().len() ==> match r {
                Ok(x) => T::accepts(self.cell(idx as int)) && T::decoded(self.cell(idx as int), x),
                Err(e) => !T::accepts(self.cell(idx as int)) && e.message_view() == T::error_text(
                    self.cell(idx as int),
                ),
            },
    {
        if idx >= self.columns.len() {
            let mut m = cat("column index ", string_of(&fmt_usize(idx)).as_str());
            m.append(" out of bounds");
            return Err(Error::new(m));
        }
        let v: Option<&str> = if idx < self.cells.len() {
            match &self.cells[idx] {
                Some(s) => Some(s.as_str()),
                None => None,
            }
        } else {
            None
        };
        T::from_sql(v)
    }

    /// Reads column `name` as a `T`.
    pub fn get_by_name<T: FromSql>(&self, name: &str) -> (r: Result<T, Error>)
        ensures
            match r {
                Ok(x) => T::accepts(self.lookup(name@)) && T::decoded(self.lookup(name@), x),
                Err(e) => !T::accepts(self.lookup(name@)) && e.message_view() == T::error_text(
                    self.lookup(name@),
                ),
            },
    {
        let v = self.value_of(name);
        T::from_sql(v)
    }

    fn value_of(&self, name: &str) -> (r: Option<&str>)
        ensures
            opt_str(r) == (if self.values_view().contains_key(name@) {
                self.values_view()[name@]
            } else {
                None
            }),
    {
        match self.values.get(name) {
            Some(v) => match v {
                Some(s) => Some(s.as_str()),
                None => None,
            },
            None => None,
        }
    }
}

proof fn lemma_row_map_trim(cv: Seq<Seq<char>>, vv: Seq<Option<Seq<char>>>)
    ensures
        row_map(cv, vv) == row_map(
            cv.take(if cv.len() < vv.len() { cv.len() as int } else { vv.len() as int }),
            vv.take(if cv.len() < vv.len() { cv.len() as int } else { vv.len() as int }),
        ),
{
    let n = if cv.len() < vv.len() {
        cv.len() as int
    } else {
        vv.len() as int
    };
    if n > 0 {
        assert(cv.take(n).take(n - 1) =~= cv.take(n - 1));
        assert(vv.take(n).take(n - 1) =~= vv.take(n - 1));
    } else {
        assert(cv.take(n).len() == 0 || vv.take(n).len() == 0);
    }
}

} // verus!
