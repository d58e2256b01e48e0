//! Command-line style arguments: comma-separated values and existence-or-values flags.
use vstd::prelude::*;

use crate::error::Error;
use crate::text::{concat, join, lemma_split_join, seq_join, split_char, split_on, str_eq};
use crate::traits::{FromText, ToText};

verus! {

/// Pieces of a comma-separated list that are not empty.
pub open spec fn nonempty_pieces(ps: Seq<Seq<char>>) -> Seq<Seq<char>>
    decreases ps.len(),
{
    if ps.len() == 0 {
        Seq::empty()
    } else if ps.last().len() == 0 {
        nonempty_pieces(ps.drop_last())
    } else {
        nonempty_pieces(ps.drop_last()).push(ps.last())
    }
}

/// Whether every piece parses.
pub open spec fn all_parse<T: FromText>(ps: Seq<Seq<char>>) -> bool {
    forall|i: int| 0 <= i < ps.len() ==> T::text_ok(#[trigger] ps[i])
}

/// Index of the first piece that does not parse.
pub open spec fn first_failure<T: FromText>(ps: Seq<Seq<char>>) -> int
    decreases ps.len(),
{
    if ps.len() == 0 {
        0
    } else if !all_parse::<T>(ps.drop_last()) {
        first_failure::<T>(ps.drop_last())
    } else {
        ps.len() - 1
    }
}

/// Whether `vs` are the values the pieces `ps` denote.
pub open spec fn values_of<T: FromText>(ps: Seq<Seq<char>>, vs: Seq<T>) -> bool {
    vs.len() == ps.len() && forall|i: int| 0 <= i < ps.len() ==> T::text_value(ps[i], #[trigger] vs[i])
}

proof fn lemma_first_failure<T: FromText>(ps: Seq<Seq<char>>)
    requires
        !all_parse::<T>(ps),
    ensures
        0 <= first_failure::<T>(ps) < ps.len(),
        !T::text_ok(ps[first_failure::<T>(ps)]),
        all_parse::<T>(ps.subrange(0, first_failure::<T>(ps))),
    decreases ps.len(),
{
    if !all_parse::<T>(ps.drop_last()) {
        lemma_first_failure::<T>(ps.drop_last());
        let f = first_failure::<T>(ps);
        assert(ps.drop_last()[f] == ps[f]);
        assert(ps.drop_last().subrange(0, f) =~= ps.subrange(0, f));
    } else {
        assert(ps.subrange(0, ps.len() - 1) =~= ps.drop_last());
        if T::text_ok(ps.last()) {
            assert forall|i: int| 0 <= i < ps.len() implies T::text_ok(#[trigger] ps[i]) by {
                if i < ps.len() - 1 {
                    assert(ps.drop_last()[i] == ps[i]);
                }
            }
        }
    }
}

/// Parses each string, stopping at the first that fails; the error carries the index of
/// the failing string and its message.
fn parse_all<T: FromText>(ps: &Vec<String>) -> (r: Result<Vec<T>, (usize, String)>)
    ensures
        match r {
            Ok(vs) => all_parse::<T>(ps@.map_values(|x: String| x@)) && values_of(
                ps@.map_values(|x: String| x@),
                vs@,
            ),
            Err((i, m)) => !all_parse::<T>(ps@.map_values(|x: String| x@)) && i == first_failure::<T>(
                ps@.map_values(|x: String| x@),
            ) && m@ == T::text_error(ps@[i as int]@) && i < ps@.len(),
        },
{
    let ghost views = ps@.map_values(|x: String| x@);
    let mut vs: Vec<T> = Vec::new();
    let mut i: usize = 0;
    while i < ps.len()
        invariant
            i <= ps@.len(),
            views == ps@.map_values(|x: String| x@),
            all_parse::<T>(views.subrange(0, i as int)),
            values_of(views.subrange(0, i as int), vs@),
        decreases ps.len() - i,
    {
        match T::from_text(ps[i].as_str()) {
            Ok(v) => {
                vs.push(v);
                assert(views.subrange(0, i + 1) =~= views.subrange(0, i as int).push(views[i as int]));
            },
            Err(m) => {
                proof {
                    assert(!T::text_ok(views[i as int]));
                    lemma_first_failure::<T>(views);
                    let f = first_failure::<T>(views);
                    if f < i {
                        assert(views.subrange(0, i as int)[f] == views[f]);
                    }
                    if f > i {
                        assert(views.subrange(0, f)[i as int] == views[i as int]);
                    }
                }
                return Err((i, m));
            },
        }
        i = i + 1;
    }
    assert(views.subrange(0, ps@.len() as int) =~= views);
    Ok(vs)
}

/// Strings of `all` that are not empty.
fn keep_nonempty(all: Vec<String>) -> (r: Vec<String>)
    ensures
        r@.map_values(|x: String| x@) == nonempty_pieces(all@.map_values(|x: String| x@)),
{
    let ghost views = all@.map_values(|x: String| x@);
    let mut r: Vec<String> = Vec::new();
    let mut i: usize = 0;
    while i < all.len()
        invariant
            i <= all@.len(),
            views == all@.map_values(|x: String| x@),
            r@.map_values(|x: String| x@) == nonempty_pieces(views.subrange(0, i as int)),
        decreases all.len() - i,
    {
        assert(views.subrange(0, i + 1).drop_last() =~= views.subrange(0, i as int));
        if !all[i].as_str().is_empty() {
            r.push(all[i].clone());
            assert(r@.map_values(|x: String| x@) =~= nonempty_pieces(views.subrange(0, i as int)).push(
                views[i as int],
            ));
        }
        i = i + 1;
    }
    assert(views.subrange(0, all@.len() as int) =~= views);
    r
}

/// Comma-separated value support.
#[derive(Debug)]
pub struct Csv<T>(Vec<T>);

impl<T> Csv<T> {
    /// The values in order.
    pub closed spec fn spec_values(&self) -> Seq<T> {
        self.0@
    }

    /// A list of the given values.
    pub fn from_vec(values: Vec<T>) -> (r: Csv<T>)
        ensures
            r.spec_values() == values@,
    {
        Csv(values)
    }

    /// Convert into the vector of comma-separated values.
    pub fn into_inner(self) -> (r: Vec<T>)
        ensures
            r@ == self.spec_values(),
    {
        self.0
    }

    /// The values as a slice.
    pub fn as_slice(&self) -> (r: &[T])
        ensures
            r@ == self.spec_values(),
    {
        self.0.as_slice()
    }

    /// Number of values.
    pub fn len(&self) -> (r: usize)
        ensures
            r == self.spec_values().len(),
    {
        self.0.len()
    }

    /// Replaces the value at an index.
    pub fn set(&mut self, i: usize, value: T)
        requires
            i < old(self).spec_values().len(),
        ensures
            final(self).spec_values() == old(self).spec_values().update(i as int, value),
    {
        self.0.set(i, value);
    }
}

impl<T: FromText> FromText for Csv<T> {
    open spec fn text_ok(s: Seq<char>) -> bool {
        all_parse::<T>(nonempty_pieces(split_char(s, ',')))
    }

    open spec fn text_value(s: Seq<char>, v: Csv<T>) -> bool {
        values_of(nonempty_pieces(split_char(s, ',')), v.spec_values())
    }

    open spec fn text_error(s: Seq<char>) -> Seq<char> {
        let ps = nonempty_pieces(split_char(s, ','));
        let x = ps[first_failure::<T>(ps)];
        x + ": "@ + T::text_error(x)
    }

    fn from_text(s: &str) -> (r: Result<Csv<T>, String>) {
        let pieces = split_on(s, ',');
        assert(pieces@.map_values(|x: String| x@) =~= split_char(s@, ','));
        let kept = keep_nonempty(pieces);
        match parse_all::<T>(&kept) {
            Ok(vs) => Ok(Csv(vs)),
            Err((i, m)) => {
                let a = concat(kept[i].as_str(), ": ");
                Err(concat(a.as_str(), m.as_str()))
            },
        }
    }
}

impl<T: FromText> Csv<T> {
    /// Parses comma-separated values, skipping empty ones; a value that fails to parse
    /// gives an invalid value error naming it.
    pub fn from_str(s: &str) -> (r: Result<Csv<T>, Error>)
        ensures
            r is Ok <==> Self::text_ok(s@),
            r matches Ok(v) ==> Self::text_value(s@, v),
            r matches Err(e) ==> e.is_invalid_value(Self::text_error(s@)),
    {
        match Self::from_text(s) {
            Ok(v) => Ok(v),
            Err(m) => Err(Error::InvalidValue(m)),
        }
    }
}

/// Texts of a list of values.
pub open spec fn texts<T: ToText>(vs: Seq<T>) -> Seq<Seq<char>> {
    vs.map_values(|v: T| v.spec_text())
}

/// Texts of a list of values.
fn to_texts<T: ToText>(vs: &Vec<T>) -> (r: Vec<String>)
    ensures
        r@.map_values(|x: String| x@) == texts(vs@),
{
    let mut r: Vec<String> = Vec::new();
    let mut i: usize = 0;
    while i < vs.len()
        invariant
            i <= vs@.len(),
            r@.map_values(|x: String| x@) == texts(vs@.subrange(0, i as int)),
        decreases vs.len() - i,
    {
        let ghost before = r@;
        r.push(vs[i].to_text());
        assert(vs@.subrange(0, i + 1) =~= vs@.subrange(0, i as int).push(vs@[i as int]));
        assert(texts(vs@.subrange(0, i + 1)) =~= texts(vs@.subrange(0, i as int)).push(vs@[i as int].spec_text()));
        assert(r@.map_values(|x: String| x@) =~= before.map_values(|x: String| x@).push(r@[i as int]@));
        i = i + 1;
    }
    assert(vs@.subrange(0, vs@.len() as int) =~= vs@);
    r
}

impl<T: ToText> ToText for Csv<T> {
    open spec fn spec_text(&self) -> Seq<char> {
        seq_join(texts(self.spec_values()), ","@)
    }

    fn to_text(&self) -> (s: String) {
        let t = to_texts(&self.0);
        join(&t, ",")
    }
}

/// Either whether a field exists or values to match against it.
#[derive(Debug)]
pub enum ExistsOrValues<T> {
    Exists(bool),
    Values(Vec<T>),
}

impl<T: FromText> FromText for ExistsOrValues<T> {
    open spec fn text_ok(s: Seq<char>) -> bool {
        s == "true"@ || s == "false"@ || all_parse::<T>(split_char(s, ','))
    }

    open spec fn text_value(s: Seq<char>, v: ExistsOrValues<T>) -> bool {
        if s == "true"@ {
            v == ExistsOrValues::<T>::Exists(true)
        } else if s == "false"@ {
            v == ExistsOrValues::<T>::Exists(false)
        } else {
            v matches ExistsOrValues::Values(vs) && values_of(split_char(s, ','), vs@)
        }
    }

    open spec fn text_error(s: Seq<char>) -> Seq<char> {
        let ps = split_char(s, ',');
        "failed parsing: "@ + T::text_error(ps[first_failure::<T>(ps)])
    }

    fn from_text(s: &str) -> (r: Result<ExistsOrValues<T>, String>) {
        if str_eq(s, "true") {
            return Ok(ExistsOrValues::Exists(true));
        }
        if str_eq(s, "false") {
            return Ok(ExistsOrValues::Exists(false));
        }
        let pieces = split_on(s, ',');
        assert(pieces@.map_values(|x: String| x@) =~= split_char(s@, ','));
        match parse_all::<T>(&pieces) {
            Ok(vs) => Ok(ExistsOrValues::Values(vs)),
            Err((_, m)) => Err(concat("failed parsing: ", m.as_str())),
        }
    }
}

impl<T: FromText> ExistsOrValues<T> {
    /// Parses `true`, `false` or comma-separated values; a value that fails to parse gives
    /// an invalid value error.
    pub fn from_str(s: &str) -> (r: Result<ExistsOrValues<T>, Error>)
        ensures
            r is Ok <==> Self::text_ok(s@),
            r matches Ok(v) ==> Self::text_value(s@, v),
            r matches Err(e) ==> e.is_invalid_value(Self::text_error(s@)),
    {
        match Self::from_text(s) {
            Ok(v) => Ok(v),
            Err(m) => Err(Error::InvalidValue(m)),
        }
    }
}

impl<T: ToText> ToText for ExistsOrValues<T> {
    open spec fn spec_text(&self) -> Seq<char> {
        match self {
            ExistsOrValues::Exists(b) => if *b { "true"@ } else { "false"@ },
            ExistsOrValues::Values(vs) => seq_join(texts(vs@), ","@),
        }
    }

    fn to_text(&self) -> (s: String) {
        match self {
            ExistsOrValues::Exists(b) => if *b { crate::text::owned("true") } else { crate::text::owned("false") },
            ExistsOrValues::Values(vs) => {
                let t = to_texts(vs);
                join(&t, ",")
            },
        }
    }
}

/// Concatenation of lists.
pub open spec fn flatten_seqs<T>(lists: Seq<Vec<T>>) -> Seq<T>
    decreases lists.len(),
{
    if lists.len() == 0 {
        Seq::empty()
    } else {
        flatten_seqs(lists.drop_last()) + lists.last()@
    }
}

impl<T> ExistsOrValues<Vec<T>> {
    /// Flattens lists of values into one list.
    pub fn flatten(self) -> (r: ExistsOrValues<T>)
        ensures
            match self {
                ExistsOrValues::Exists(b) => r matches ExistsOrValues::Exists(c) && b == c,
                ExistsOrValues::Values(lists) => r matches ExistsOrValues::Values(vs) && vs@ == flatten_seqs(
                    lists@,
                ),
            },
    {
        match self {
            ExistsOrValues::Exists(b) => ExistsOrValues::Exists(b),
            ExistsOrValues::Values(lists) => {
                let ghost all = lists@;
                let mut out: Vec<T> = Vec::new();
                let mut rest = lists;
                while rest.len() > 0
                    invariant
                        rest@.len() <= all.len(),
                        rest@ == all.subrange(all.len() - rest@.len(), all.len() as int),
                        out@ == flatten_seqs(all.subrange(0, all.len() - rest@.len())),
                    decreases rest.len(),
                {
                    let ghost k = all.len() - rest@.len();
                    let mut first = rest.remove(0);
                    assert(rest@ =~= all.subrange(all.len() - rest@.len(), all.len() as int));
                    assert(all.subrange(0, k + 1).drop_last() =~= all.subrange(0, k));
                    let ghost before = out@;
                    out.append(&mut first);
                    assert(out@ =~= before + all[k]@);
                }
                assert(all.subrange(0, all.len() as int) =~= all);
                ExistsOrValues::Values(out)
            },
        }
    }
}

/// Values given as a comma-separated list, or read from standard input when given as `-`.
#[derive(Debug)]
pub enum CsvOrStdin<T> {
    Csv(Csv<T>),
    Stdin(Vec<T>),
}

impl<T> CsvOrStdin<T> {
    /// The values in order.
    pub open spec fn spec_values(&self) -> Seq<T> {
        match self {
            CsvOrStdin::Csv(x) => x.spec_values(),
            CsvOrStdin::Stdin(x) => x@,
        }
    }

    /// Convert into the vector of values.
    pub fn into_inner(self) -> (r: Vec<T>)
        ensures
            r@ == self.spec_values(),
    {
        match self {
            CsvOrStdin::Csv(x) => x.into_inner(),
            CsvOrStdin::Stdin(x) => x,
        }
    }

    /// The values as a slice.
    pub fn iter(&self) -> (r: &[T])
        ensures
            r@ == self.spec_values(),
    {
        match self {
            CsvOrStdin::Csv(x) => x.as_slice(),
            CsvOrStdin::Stdin(x) => x.as_slice(),
        }
    }
}

/// Whether an argument asks for values to be read from standard input.
pub open spec fn is_stdin_marker(s: Seq<char>) -> bool {
    s == "-"@
}

impl<T: FromText> CsvOrStdin<T> {
    /// Parses comma-separated values; `-` is left to the caller, which reads the values
    /// from standard input and builds `Stdin` from them.
    pub fn from_str(s: &str) -> (r: Option<Result<CsvOrStdin<T>, Error>>)
        ensures
            is_stdin_marker(s@) <==> r is None,
            r matches Some(x) ==> (x is Ok <==> Csv::<T>::text_ok(s@)),
            r matches Some(Ok(v)) ==> v matches CsvOrStdin::Csv(c) && Csv::<T>::text_value(s@, c),
            r matches Some(Err(e)) ==> e.is_invalid_value(Csv::<T>::text_error(s@)),
    {
        if str_eq(s, "-") {
            None
        } else {
            match Csv::<T>::from_str(s) {
                Ok(c) => Some(Ok(CsvOrStdin::Csv(c))),
                Err(e) => Some(Err(e)),
            }
        }
    }
}


/// Text lists always parse; displaying a parsed list joins its nonempty pieces with commas,
/// so empty pieces vanish and the display parses back to the same list.
pub proof fn lemma_csv_text_display(s: Seq<char>, v: Csv<String>)
    requires
        Csv::<String>::text_value(s, v),
    ensures
        Csv::<String>::text_ok(s),
        v.spec_text() == seq_join(nonempty_pieces(split_char(s, ',')), ","@),
{
    let ps = nonempty_pieces(split_char(s, ','));
    assert(texts(v.spec_values()) =~= ps);
}


/// Pieces that are all non-empty are kept as they are.
proof fn lemma_nonempty_pieces_all(ps: Seq<Seq<char>>)
    requires
        forall|i: int| 0 <= i < ps.len() ==> (#[trigger] ps[i]).len() > 0,
    ensures
        nonempty_pieces(ps) == ps,
    decreases ps.len(),
{
    if ps.len() > 0 {
        let init = ps.drop_last();
        assert forall|i: int| 0 <= i < init.len() implies (#[trigger] init[i]).len() > 0 by {
            assert(init[i] == ps[i]);
        }
        lemma_nonempty_pieces_all(init);
        assert(ps.last() == ps[ps.len() - 1]);
        assert(init.push(ps.last()) =~= ps);
    }
}

/// A list of non-empty texts without commas parses back from its display to the same
/// values.
pub proof fn lemma_csv_roundtrip(v: Csv<String>)
    requires
        forall|i: int|
            0 <= i < v.spec_values().len() ==> (#[trigger] v.spec_values()[i])@.len() > 0
                && !v.spec_values()[i]@.contains(','),
    ensures
        Csv::<String>::text_ok(v.spec_text()),
        Csv::<String>::text_value(v.spec_text(), v),
{
    reveal_strlit(",");
    assert(","@ =~= seq![',']);
    let xs = texts(v.spec_values());
    if xs.len() == 0 {
        assert(v.spec_text() =~= Seq::<char>::empty());
        assert(split_char(v.spec_text(), ',') =~= seq![Seq::<char>::empty()]);
        let one = seq![Seq::<char>::empty()];
        assert(one.drop_last() =~= Seq::<Seq<char>>::empty());
        assert(nonempty_pieces(one.drop_last()) == Seq::<Seq<char>>::empty());
        assert(one.last().len() == 0);
        assert(nonempty_pieces(one) == nonempty_pieces(one.drop_last()));
        assert(v.spec_values().len() == 0);
    } else {
        assert forall|i: int| 0 <= i < xs.len() implies !(#[trigger] xs[i]).contains(',') && xs[i].len() > 0 by {
            assert(xs[i] == v.spec_values()[i]@);
        }
        lemma_split_join(xs, ',');
        lemma_nonempty_pieces_all(xs);
        assert(nonempty_pieces(split_char(v.spec_text(), ',')) == xs);
        assert forall|i: int| 0 <= i < xs.len() implies String::text_value(xs[i], #[trigger] v.spec_values()[i]) by {
            assert(xs[i] == v.spec_values()[i]@);
        }
    }
}

} // verus!
