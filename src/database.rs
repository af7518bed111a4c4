use vstd::prelude::*;
use vstd::string::*;

verus! {

broadcast use vstd::string::group_string_axioms;

/// The character that separates database paths in their joined form.
pub const SEPARATOR: char = ':';

/// The character that ends a native text string.
pub const TERMINATOR: char = '\0';

/// A database path that can be joined with others: it holds neither the
/// separator nor the terminator.
pub open spec fn valid_path(p: Seq<char>) -> bool {
    !p.contains(SEPARATOR) && !p.contains(TERMINATOR)
}

/// The paths of `paths` in order, with the separator between each two of them.
pub open spec fn join_paths(paths: Seq<Seq<char>>) -> Seq<char>
    decreases paths.len(),
{
    if paths.len() == 0 {
        Seq::empty()
    } else if paths.len() == 1 {
        paths[0]
    } else {
        join_paths(paths.drop_last()) + seq![SEPARATOR] + paths.last()
    }
}

/// The pieces of `s` between separators, in order; a text without a separator
/// is one piece.
pub open spec fn split_paths(s: Seq<char>) -> Seq<Seq<char>>
    decreases s.len(),
{
    if s.len() == 0 {
        seq![Seq::empty()]
    } else {
        let front = split_paths(s.drop_last());
        if s.last() == SEPARATOR {
            front.push(Seq::empty())
        } else {
            front.update(front.len() - 1, front.last().push(s.last()))
        }
    }
}

/// What a list of paths selects: the engine's default databases where the
/// joined form is empty, else the joined form.
pub open spec fn locator_of(paths: Seq<Seq<char>>) -> Option<Seq<char>> {
    if join_paths(paths).len() == 0 {
        None
    } else {
        Some(join_paths(paths))
    }
}

proof fn lemma_split_nonempty(s: Seq<char>)
    ensures
        split_paths(s).len() >= 1,
    decreases s.len(),
{
    if s.len() > 0 {
        lemma_split_nonempty(s.drop_last());
    }
}

/// Appending text without a separator extends the last piece.
proof fn lemma_split_extend(s: Seq<char>, b: Seq<char>)
    requires
        !b.contains(SEPARATOR),
    ensures
        split_paths(s + b) == split_paths(s).update(
            split_paths(s).len() - 1,
            split_paths(s).last() + b,
        ),
    decreases b.len(),
{
    lemma_split_nonempty(s);
    if b.len() == 0 {
        assert(s + b =~= s);
        assert(split_paths(s).last() + b =~= split_paths(s).last());
        assert(split_paths(s).update(split_paths(s).len() - 1, split_paths(s).last())
            =~= split_paths(s));
    } else {
        let b0 = b.drop_last();
        assert(!b0.contains(SEPARATOR)) by {
            if b0.contains(SEPARATOR) {
                let k = choose|k: int| 0 <= k < b0.len() && b0[k] == SEPARATOR;
                assert(b[k] == SEPARATOR);
            }
        }
        lemma_split_extend(s, b0);
        assert((s + b).drop_last() =~= s + b0);
        assert((s + b).last() == b.last());
        assert(b.last() != SEPARATOR) by {
            assert(b[b.len() - 1] == b.last());
        }
        assert(split_paths(s).last() + b0 + seq![b.last()] =~= split_paths(s).last() + b);
        let f = split_paths(s);
        let front = split_paths(s + b0);
        assert(front == f.update(f.len() - 1, f.last() + b0));
        assert(front.len() == f.len());
        assert(front.last() == f.last() + b0);
        assert(split_paths(s + b) == front.update(front.len() - 1, front.last().push(b.last())));
        assert((f.last() + b0).push(b.last()) =~= f.last() + b);
        assert(split_paths(s + b) =~= split_paths(s).update(
            split_paths(s).len() - 1,
            split_paths(s).last() + b,
        ));
    }
}

/// Joining paths that hold no separator, then splitting the result at each
/// separator, gives back the same paths.
pub proof fn lemma_join_split_round_trip(paths: Seq<Seq<char>>)
    requires
        paths.len() > 0,
        forall|i: int| 0 <= i < paths.len() ==> !(#[trigger] paths[i]).contains(SEPARATOR),
    ensures
        split_paths(join_paths(paths)) == paths,
    decreases paths.len(),
{
    let last = paths.last();
    assert(!last.contains(SEPARATOR)) by {
        assert(paths[paths.len() - 1] == last);
    }
    if paths.len() == 1 {
        let e = Seq::<char>::empty();
        lemma_split_extend(e, last);
        assert(e + last =~= last);
        assert(split_paths(e) == seq![e]);
        assert(split_paths(join_paths(paths)) =~= paths);
    } else {
        let front = paths.drop_last();
        assert forall|i: int| 0 <= i < front.len() implies !(#[trigger] front[i]).contains(
            SEPARATOR,
        ) by {
            assert(front[i] == paths[i]);
        }
        lemma_join_split_round_trip(front);
        let j = join_paths(front) + seq![SEPARATOR];
        assert(j.drop_last() =~= join_paths(front));
        assert(split_paths(j) == front.push(Seq::empty()));
        lemma_split_extend(j, last);
        assert(Seq::<char>::empty() + last =~= last);
        assert(split_paths(join_paths(paths)) =~= paths);
    }
}

/// Joining paths without a terminator gives a text without a terminator.
proof fn lemma_join_no_terminator(paths: Seq<Seq<char>>)
    requires
        forall|i: int| 0 <= i < paths.len() ==> valid_path(#[trigger] paths[i]),
    ensures
        !join_paths(paths).contains(TERMINATOR),
    decreases paths.len(),
{
    if paths.len() == 1 {
        assert(valid_path(paths[0]));
    } else if paths.len() > 1 {
        let front = paths.drop_last();
        assert forall|i: int| 0 <= i < front.len() implies valid_path(#[trigger] front[i]) by {
            assert(front[i] == paths[i]);
        }
        lemma_join_no_terminator(front);
        let last = paths.last();
        assert(valid_path(paths[paths.len() - 1]));
        let j = join_paths(paths);
        let jf = join_paths(front);
        assert(j == jf + seq![SEPARATOR] + last);
        if j.contains(TERMINATOR) {
            let k = choose|k: int| 0 <= k < j.len() && j[k] == TERMINATOR;
            if k < jf.len() {
                assert(jf[k] == TERMINATOR);
            } else if k > jf.len() {
                assert(last[k - jf.len() - 1] == TERMINATOR);
            }
        }
    }
}

/// The joined form of a selection: empty for the engine's default databases.
pub open spec fn joined_form(locator: Option<Seq<char>>) -> Seq<char> {
    match locator {
        Some(s) => s,
        None => Seq::empty(),
    }
}

/// A selection made from paths without a separator gives them back when its
/// joined form is split at each separator.
pub proof fn lemma_locator_round_trip(paths: Seq<Seq<char>>)
    requires
        paths.len() > 0,
        forall|i: int| 0 <= i < paths.len() ==> valid_path(#[trigger] paths[i]),
    ensures
        split_paths(joined_form(locator_of(paths))) == paths,
{
    assert forall|i: int| 0 <= i < paths.len() implies !(#[trigger] paths[i]).contains(
        SEPARATOR,
    ) by {
        assert(valid_path(paths[i]));
    }
    lemma_join_split_round_trip(paths);
}

/// The texts of a list of string slices.
pub open spec fn texts_of(paths: Seq<&str>) -> Seq<Seq<char>> {
    paths.map_values(|p: &str| p@)
}

/// A validated selection of database files: the engine's default databases, or
/// the joined form of one or more paths.
pub struct DatabasePaths {
    filenames: Option<String>,
}

impl DatabasePaths {
    /// The joined form is a native text string: no terminator inside, and not
    /// empty (the empty selection is the default one).
    #[verifier::type_invariant]
    closed spec fn wf(self) -> bool {
        match self.filenames {
            Some(s) => s@.len() > 0 && !s@.contains(TERMINATOR),
            None => true,
        }
    }
}

impl View for DatabasePaths {
    type V = Option<Seq<char>>;

    closed spec fn view(&self) -> Option<Seq<char>> {
        match self.filenames {
            Some(s) => Some(s@),
            None => None,
        }
    }
}

impl Default for DatabasePaths {
    /// The engine's default databases.
    fn default() -> (r: DatabasePaths)
        ensures
            r@ is None,
    {
        DatabasePaths { filenames: None }
    }
}

impl<'a> TryFrom<&'a str> for DatabasePaths {
    type Error = InvalidDatabasePathError;

    /// The selection of the one path `value`.
    fn try_from(value: &'a str) -> (r: Result<DatabasePaths, InvalidDatabasePathError>)
        ensures
            r is Ok <==> valid_path(value@),
            r is Ok ==> r->Ok_0@ == locator_of(seq![value@]),
    {
        let paths: [&str; 1] = [value];
        let r = DatabasePaths::new(paths.as_slice());
        proof {
            assert(texts_of(paths@) =~= seq![value@]);
            if valid_path(value@) {
                assert(valid_path(paths@[0]@));
            }
        }
        r
    }
}

impl<'a> vstd::std_specs::convert::TryFromSpecImpl<&'a str> for DatabasePaths {
    /// Generic callers learn nothing: two selections with equal joined forms
    /// need not be equal values. Direct calls have the contract of `try_from`.
    open spec fn obeys_try_from_spec() -> bool {
        false
    }

    open spec fn try_from_spec(v: &'a str) -> Result<DatabasePaths, InvalidDatabasePathError> {
        choose|r: Result<DatabasePaths, InvalidDatabasePathError>|
            (r is Ok <==> valid_path(v@)) && (r is Ok ==> r->Ok_0@ == locator_of(seq![v@]))
    }
}

impl<'a, const N: usize> TryFrom<[&'a str; N]> for DatabasePaths {
    type Error = InvalidDatabasePathError;

    /// The selection of the paths of `value`, as `DatabasePaths::new` makes it.
    fn try_from(value: [&'a str; N]) -> (r: Result<DatabasePaths, InvalidDatabasePathError>)
        ensures
            r is Ok <==> forall|i: int| 0 <= i < value@.len() ==> valid_path(#[trigger] value@[i]@),
            r is Ok ==> r->Ok_0@ == locator_of(texts_of(value@)),
    {
        DatabasePaths::new(vstd::array::array_as_slice(&value))
    }
}

impl<'a, const N: usize> vstd::std_specs::convert::TryFromSpecImpl<[&'a str; N]> for DatabasePaths {
    open spec fn obeys_try_from_spec() -> bool {
        false
    }

    open spec fn try_from_spec(v: [&'a str; N]) -> Result<DatabasePaths, InvalidDatabasePathError> {
        choose|r: Result<DatabasePaths, InvalidDatabasePathError>|
            (r is Ok <==> forall|i: int| 0 <= i < v@.len() ==> valid_path(#[trigger] v@[i]@)) && (
            r is Ok ==> r->Ok_0@ == locator_of(texts_of(v@)))
    }
}

impl<'a> TryFrom<Vec<&'a str>> for DatabasePaths {
    type Error = InvalidDatabasePathError;

    /// The selection of the paths of `value`, as `DatabasePaths::new` makes it.
    fn try_from(value: Vec<&'a str>) -> (r: Result<DatabasePaths, InvalidDatabasePathError>)
        ensures
            r is Ok <==> forall|i: int| 0 <= i < value@.len() ==> valid_path(#[trigger] value@[i]@),
            r is Ok ==> r->Ok_0@ == locator_of(texts_of(value@)),
    {
        DatabasePaths::new(value.as_slice())
    }
}

impl<'a> vstd::std_specs::convert::TryFromSpecImpl<Vec<&'a str>> for DatabasePaths {
    open spec fn obeys_try_from_spec() -> bool {
        false
    }

    open spec fn try_from_spec(v: Vec<&'a str>) -> Result<DatabasePaths, InvalidDatabasePathError> {
        choose|r: Result<DatabasePaths, InvalidDatabasePathError>|
            (r is Ok <==> forall|i: int| 0 <= i < v@.len() ==> valid_path(#[trigger] v@[i]@)) && (
            r is Ok ==> r->Ok_0@ == locator_of(texts_of(v@)))
    }
}

impl<'a, 'b> TryFrom<&'b [&'a str]> for DatabasePaths {
    type Error = InvalidDatabasePathError;

    /// The selection of the paths of `value`, as `DatabasePaths::new` makes it.
    fn try_from(value: &'b [&'a str]) -> (r: Result<DatabasePaths, InvalidDatabasePathError>)
        ensures
            r is Ok <==> forall|i: int| 0 <= i < value@.len() ==> valid_path(#[trigger] value@[i]@),
            r is Ok ==> r->Ok_0@ == locator_of(texts_of(value@)),
    {
        DatabasePaths::new(value)
    }
}

impl<'a, 'b> vstd::std_specs::convert::TryFromSpecImpl<&'b [&'a str]> for DatabasePaths {
    open spec fn obeys_try_from_spec() -> bool {
        false
    }

    open spec fn try_from_spec(v: &'b [&'a str]) -> Result<DatabasePaths, InvalidDatabasePathError> {
        choose|r: Result<DatabasePaths, InvalidDatabasePathError>|
            (r is Ok <==> forall|i: int| 0 <= i < v@.len() ==> valid_path(#[trigger] v@[i]@)) && (
            r is Ok ==> r->Ok_0@ == locator_of(texts_of(v@)))
    }
}

/// A database path held the separator or the terminator.
#[derive(Debug, PartialEq, Eq, Structural)]
pub struct InvalidDatabasePathError {}

impl DatabasePaths {
    /// Validates `paths` and joins them with the separator.
    pub fn new(paths: &[&str]) -> (r: Result<DatabasePaths, InvalidDatabasePathError>)
        ensures
            r is Ok <==> forall|i: int| 0 <= i < paths@.len() ==> valid_path(#[trigger] paths@[i]@),
            r is Ok ==> r->Ok_0@ == locator_of(texts_of(paths@)),
    {
        let ghost texts = texts_of(paths@);
        let mut joined = String::new();
        let mut i: usize = 0;
        while i < paths.len()
            invariant
                i <= paths@.len(),
                texts == texts_of(paths@),
                joined@ == join_paths(texts.take(i as int)),
                forall|j: int| 0 <= j < i ==> valid_path(#[trigger] paths@[j]@),
            decreases paths@.len() - i,
        {
            let p: &str = paths[i];
            if !is_valid_path(p) {
                return Err(InvalidDatabasePathError {});
            }
            if i > 0 {
                proof {
                    reveal_strlit(":");
                }
                joined.append(":");
            }
            joined.append(p);
            proof {
                let next = texts.take(i + 1);
                assert(next.drop_last() =~= texts.take(i as int));
                assert(next.last() == p@);
                if i == 0 {
                    assert(joined@ =~= p@);
                }
            }
            i += 1;
        }
        assert(texts.take(i as int) =~= texts);
        proof {
            assert forall|j: int| 0 <= j < texts.len() implies valid_path(#[trigger] texts[j]) by {
                assert(valid_path(paths@[j]@));
            }
            lemma_join_no_terminator(texts);
        }
        if joined.as_str().is_empty() {
            Ok(DatabasePaths { filenames: None })
        } else {
            Ok(DatabasePaths { filenames: Some(joined) })
        }
    }

    /// The joined form, or `None` for the engine's default databases.
    pub fn filenames(&self) -> (r: Option<&str>)
        ensures
            match r {
                Some(t) => self@ == Some(t@) && t@.len() > 0 && !t@.contains(TERMINATOR),
                None => self@ is None,
            },
    {
        proof {
            use_type_invariant(self);
        }
        match &self.filenames {
            Some(s) => Some(s.as_str()),
            None => None,
        }
    }
}

/// Whether `p` holds neither the separator nor the terminator.
fn is_valid_path(p: &str) -> (r: bool)
    ensures
        r == valid_path(p@),
{
    for c in it: p.chars()
        invariant
            it.seq() == p@,
            forall|j: int| 0 <= j < it.index() ==> it.seq()[j] != SEPARATOR && it.seq()[j] != TERMINATOR,
    {
        if c == SEPARATOR || c == TERMINATOR {
            return false;
        }
    }
    true
}

} // verus!
