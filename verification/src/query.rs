//! SELECT requests and their rendering as SQL text.

use vstd::prelude::*;
use vstd::string::StringExecFns;

verus! {

/// A SELECT request: the source to read from, the columns to read, and the
/// tokens of a filter. Nothing in it is checked or quoted.
#[derive(Debug, PartialEq, Eq)]
pub struct SELECT {
    from: String,
    columns: Vec<String>,
    filter: Vec<String>,
}

/// The mathematical value of a [`SELECT`].
pub struct SelectModel {
    pub from: Seq<char>,
    pub columns: Seq<Seq<char>>,
    pub filter: Seq<Seq<char>>,
}

/// The texts of a list of strings, one for one.
pub open spec fn texts(items: Seq<String>) -> Seq<Seq<char>> {
    Seq::new(items.len(), |i: int| items[i]@)
}

/// The texts of a list of string slices, one for one.
pub open spec fn slice_texts(items: Seq<&str>) -> Seq<Seq<char>> {
    Seq::new(items.len(), |i: int| items[i]@)
}

/// The parts in their order, with the separator between each two.
pub open spec fn join(parts: Seq<Seq<char>>, separator: Seq<char>) -> Seq<char>
    decreases parts.len(),
{
    if parts.len() == 0 {
        Seq::empty()
    } else if parts.len() == 1 {
        parts[0]
    } else {
        join(parts.drop_last(), separator) + separator + parts.last()
    }
}

/// The column list of a request: the columns joined by commas, or `*` where
/// there are none.
pub open spec fn column_list(columns: Seq<Seq<char>>) -> Seq<char> {
    if columns.len() > 0 {
        join(columns, ","@)
    } else {
        "*"@
    }
}

/// The WHERE clause of a request: nothing where there are no filter tokens,
/// else a line break, the keyword and the tokens joined by single spaces.
pub open spec fn where_clause(filter: Seq<Seq<char>>) -> Seq<char> {
    if filter.len() > 0 {
        "\n  WHERE "@ + join(filter, " "@)
    } else {
        Seq::empty()
    }
}

/// The SQL text of a request.
pub open spec fn render(select: SelectModel) -> Seq<char> {
    "SELECT "@ + column_list(select.columns) + " FROM "@ + select.from + where_clause(
        select.filter,
    )
}

impl View for SELECT {
    type V = SelectModel;

    closed spec fn view(&self) -> SelectModel {
        SelectModel { from: self.from@, columns: texts(self.columns@), filter: texts(self.filter@) }
    }
}

/// Appends an owned copy of each slice of `more` to `list`.
fn extend_with(list: &mut Vec<String>, more: &Vec<&str>)
    ensures
        texts(final(list)@) == texts(old(list)@) + slice_texts(more@),
{
    let mut i: usize = 0;
    proof {
        assert(slice_texts(more@).take(0) =~= Seq::empty());
        assert(texts(list@) + Seq::empty() =~= texts(list@));
    }
    while i < more.len()
        invariant
            i <= more.len(),
            texts(list@) == texts(old(list)@) + slice_texts(more@).take(i as int),
        decreases more.len() - i,
    {
        let item = String::from_str(more[i]);
        proof {
            assert(texts(list@.push(item)) =~= texts(list@).push(item@));
            assert(slice_texts(more@).take(i as int + 1) =~= slice_texts(more@).take(
                i as int,
            ).push(more@[i as int]@));
            assert((texts(old(list)@) + slice_texts(more@).take(i as int)).push(item@) =~= texts(
                old(list)@,
            ) + slice_texts(more@).take(i as int + 1));
        }
        list.push(item);
        i += 1;
    }
    proof {
        assert(slice_texts(more@).take(i as int) =~= slice_texts(more@));
    }
}

impl SELECT {
    /// A request that reads every column of `entity`, unfiltered.
    pub fn from(entity: &str) -> (r: SELECT)
        ensures
            r@ == (SelectModel { from: entity@, columns: Seq::empty(), filter: Seq::empty() }),
    {
        let r = SELECT { from: String::from_str(entity), columns: Vec::new(), filter: Vec::new() };
        proof {
            assert(texts(r.columns@) =~= Seq::empty());
            assert(texts(r.filter@) =~= Seq::empty());
        }
        r
    }

    /// The request with `columns` added after the columns it has.
    pub fn columns(self, columns: Vec<&str>) -> (r: SELECT)
        ensures
            r@ == (SelectModel { columns: self@.columns + slice_texts(columns@), ..self@ }),
    {
        let mut select = self;
        extend_with(&mut select.columns, &columns);
        select
    }

    /// The request with `filter` added after the filter tokens it has.
    pub fn filter(self, filter: Vec<&str>) -> (r: SELECT)
        ensures
            r@ == (SelectModel { filter: self@.filter + slice_texts(filter@), ..self@ }),
    {
        let mut select = self;
        extend_with(&mut select.filter, &filter);
        select
    }
}

/// Appends to `out` the parts joined by the separator.
fn append_joined(out: &mut String, parts: &Vec<String>, separator: &str)
    ensures
        final(out)@ == old(out)@ + join(texts(parts@), separator@),
{
    let ghost all = texts(parts@);
    let mut i: usize = 0;
    proof {
        assert(all.take(0) =~= Seq::empty());
        assert(out@ + Seq::empty() =~= out@);
    }
    while i < parts.len()
        invariant
            i <= parts.len(),
            all == texts(parts@),
            out@ == old(out)@ + join(all.take(i as int), separator@),
        decreases parts.len() - i,
    {
        proof {
            assert(all.take(i as int + 1).drop_last() =~= all.take(i as int));
            assert(all.take(i as int + 1).last() == parts@[i as int]@);
        }
        if i > 0 {
            out.append(separator);
        }
        out.append(parts[i].as_str());
        proof {
            let prefix = join(all.take(i as int), separator@);
            if i > 0 {
                assert(old(out)@ + prefix + separator@ + parts@[i as int]@ =~= old(out)@ + (prefix
                    + separator@ + parts@[i as int]@));
            } else {
                assert(prefix =~= Seq::empty());
                assert(old(out)@ + prefix + parts@[i as int]@ =~= old(out)@ + parts@[i as int]@);
            }
        }
        i += 1;
    }
    proof {
        assert(all.take(i as int) =~= all);
    }
}

/// A request that can be written out as SQL.
pub trait CQN {
    /// The SQL text of the request.
    spec fn sql(&self) -> Seq<char>;

    /// Writes the request out as SQL.
    fn to_sql(&self) -> (r: String)
        ensures
            r@ == self.sql(),
    ;
}

impl CQN for SELECT {
    open spec fn sql(&self) -> Seq<char> {
        render(self@)
    }

    /// `SELECT`, the columns joined by commas or `*` where there are none,
    /// `FROM` and the source; then, where there are filter tokens, a line
    /// break, `WHERE` and the tokens joined by single spaces.
    fn to_sql(&self) -> (r: String) {
        let mut res = String::from_str("SELECT ");
        if self.columns.len() > 0 {
            append_joined(&mut res, &self.columns, ",");
        } else {
            res.append("*");
        }
        res.append(" FROM ");
        res.append(self.from.as_str());
        if self.filter.len() > 0 {
            res.append("\n  WHERE ");
            append_joined(&mut res, &self.filter, " ");
            proof {
                let head = "SELECT "@ + column_list(self@.columns) + " FROM "@ + self@.from;
                assert(head + "\n  WHERE "@ + join(self@.filter, " "@) =~= head + ("\n  WHERE "@
                    + join(self@.filter, " "@)));
            }
        } else {
            proof {
                let head = "SELECT "@ + column_list(self@.columns) + " FROM "@ + self@.from;
                assert(head + Seq::empty() =~= head);
            }
        }
        res
    }
}

} // verus!
