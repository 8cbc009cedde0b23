//! Application.
//!
//! What the `trash` program decides: which command runs and whether it
//! prompts, which entries a listing shows, and which entries a restore takes.

use vstd::prelude::*;

use vstd::seq_lib::*;
use vstd::string::*;

use crate::cli::{Cli, Command, ListArgs, SortOrder};
use crate::paths::{
    glob_matches,
    is_same_path,
    join,
    joined_path,
    matches_glob,
    path_precedes,
    precedes,
    same_path,
};
use crate::text::texts;
use crate::trash::{entry_results, EntryError, TrashEntry, TrashEntryView};

verus! {

/// Application.
#[derive(Clone, Copy, Debug)]
pub struct App;

/// What the program is to do.
#[derive(Clone, Copy, Debug, PartialEq, Eq, Structural)]
pub enum Task {
    /// List the entries, with their paths quoted for a shell or not.
    List { quote: bool },
    /// Put the paths in the trash, with a prompt before each or not.
    Put { prompt: bool },
    /// Restore entries, with a prompt before each or not.
    Restore { prompt: bool },
    /// Empty the trash, with a prompt before or not.
    Empty { prompt: bool },
}

/// The task for a command line. Paths are quoted, and prompts are shown,
/// only on a terminal.
pub open spec fn spec_run(cli: Cli, is_terminal: bool) -> Task {
    match cli.command {
        Command::List(_) => Task::List { quote: is_terminal },
        Command::Put(args) => Task::Put { prompt: args.interactive && is_terminal },
        Command::Restore(args) => Task::Restore { prompt: args.interactive && is_terminal },
        Command::Empty(args) => Task::Empty { prompt: !args.force && is_terminal },
    }
}

/// True when an answer to a prompt means yes: it starts with `y` or `Y`.
pub open spec fn spec_is_yes(answer: Seq<char>) -> bool {
    answer.len() > 0 && (answer[0] == 'y' || answer[0] == 'Y')
}

/// True when an answer to a prompt means yes.
pub fn is_yes(answer: &str) -> (yes: bool)
    ensures
        yes == spec_is_yes(answer@),
{
    if answer.unicode_len() == 0 {
        return false;
    }
    let first = answer.get_char(0);
    first == 'y' || first == 'Y'
}

/// True when a path matches one of the patterns, or there is no pattern.
pub open spec fn spec_is_listed(patterns: Seq<Seq<char>>, path: Seq<char>) -> bool {
    patterns.len() == 0 || exists|i: int|
        0 <= i < patterns.len() && glob_matches(#[trigger] patterns[i], path)
}

/// The indices of the entries that a listing shows, in ascending order: those
/// of the results that are entries whose original path is listed.
pub open spec fn spec_list(
    results: Seq<Result<TrashEntryView, EntryError>>,
    patterns: Seq<Seq<char>>,
) -> Seq<usize>
    decreases results.len(),
{
    if results.len() == 0 {
        Seq::empty()
    } else {
        let before = spec_list(results.drop_last(), patterns);
        match results.last() {
            Ok(entry) => if spec_is_listed(patterns, entry.original_path) {
                before.push((results.len() - 1) as usize)
            } else {
                before
            },
            Err(_) => before,
        }
    }
}

/// The number that grows with the deletion time of the entry at an index; 0
/// where the result at the index is no entry.
pub open spec fn date_key(results: Seq<Result<TrashEntryView, EntryError>>, index: usize) -> nat {
    if index < results.len() && results[index as int] is Ok {
        results[index as int]->Ok_0.deletion_time.ordinal()
    } else {
        0
    }
}

/// True when a listing by date shows the first index before the second: its
/// entry was trashed later, or at the same time and it is the smaller index.
pub open spec fn listed_before(
    results: Seq<Result<TrashEntryView, EntryError>>,
    first: usize,
    second: usize,
) -> bool {
    date_key(results, first) > date_key(results, second) || (date_key(results, first) == date_key(
        results,
        second,
    ) && first < second)
}

/// True when the indices are in the order of a listing by date: the most
/// recently trashed entry first, and entries trashed at the same time in the
/// order of their indices.
pub open spec fn is_sorted_by_date(
    results: Seq<Result<TrashEntryView, EntryError>>,
    order: Seq<usize>,
) -> bool {
    forall|i: int, j: int|
        0 <= i < j < order.len() ==> !listed_before(results, #[trigger] order[j], #[trigger] order[i])
}

/// The original path of the entry at an index; the empty path where the
/// result at the index is no entry.
pub open spec fn path_at(results: Seq<Result<TrashEntryView, EntryError>>, index: usize) -> Seq<
    char,
> {
    if index < results.len() && results[index as int] is Ok {
        results[index as int]->Ok_0.original_path
    } else {
        Seq::empty()
    }
}

/// The indices with one more, put before the first index whose path its path
/// precedes, or at the end if there is none.
pub open spec fn insert_by_path(
    results: Seq<Result<TrashEntryView, EntryError>>,
    order: Seq<usize>,
    index: usize,
) -> Seq<usize>
    decreases order.len(),
{
    if order.len() == 0 {
        seq![index]
    } else if path_precedes(path_at(results, index), path_at(results, order[0])) {
        seq![index] + order
    } else {
        seq![order[0]] + insert_by_path(results, order.drop_first(), index)
    }
}

/// The indices in the order of a listing by path: each index in turn is put
/// before the first index whose path its path precedes. Where the order of
/// paths is a total order, this sorts the indices by path in ascending order
/// and keeps those of equal paths in their order.
pub open spec fn sorted_by_path(
    results: Seq<Result<TrashEntryView, EntryError>>,
    listed: Seq<usize>,
) -> Seq<usize>
    decreases listed.len(),
{
    if listed.len() == 0 {
        Seq::empty()
    } else {
        insert_by_path(results, sorted_by_path(results, listed.drop_last()), listed.last())
    }
}

/// Putting an index before the first index whose path its path precedes is
/// inserting it at the place of that index.
pub proof fn lemma_insert_by_path(
    results: Seq<Result<TrashEntryView, EntryError>>,
    order: Seq<usize>,
    index: usize,
    place: int,
)
    requires
        0 <= place <= order.len(),
        forall|before: int|
            0 <= before < place ==> !path_precedes(
                path_at(results, index),
                path_at(results, #[trigger] order[before]),
            ),
        place < order.len() ==> path_precedes(
            path_at(results, index),
            path_at(results, order[place]),
        ),
    ensures
        insert_by_path(results, order, index) == order.insert(place, index),
    decreases order.len(),
{
    if order.len() == 0 {
        assert(order.insert(place, index) =~= seq![index]);
    } else if place == 0 {
        assert(order.insert(place, index) =~= seq![index] + order);
    } else {
        assert(!path_precedes(path_at(results, index), path_at(results, order[0])));
        let rest = order.drop_first();
        assert forall|before: int| 0 <= before < place - 1 implies !path_precedes(
            path_at(results, index),
            path_at(results, #[trigger] rest[before]),
        ) by {
            assert(rest[before] == order[before + 1]);
        }
        lemma_insert_by_path(results, rest, index, place - 1);
        assert(order.insert(place, index) =~= seq![order[0]] + rest.insert(place - 1, index));
    }
}

/// True when the result at an index is an entry that a restore may take: for
/// a given path, an entry whose original path is that path.
pub open spec fn is_candidate(
    results: Seq<Result<TrashEntryView, EntryError>>,
    path: Option<Seq<char>>,
    index: int,
) -> bool {
    &&& 0 <= index < results.len()
    &&& results[index] is Ok
    &&& path is Some ==> same_path(results[index]->Ok_0.original_path, path->Some_0)
}

/// The number that grows with the deletion time of the entry at an index.
pub open spec fn ordinal_at(results: Seq<Result<TrashEntryView, EntryError>>, index: int) -> nat {
    results[index]->Ok_0.deletion_time.ordinal()
}

/// True when the index is that of the most recently trashed candidate, and
/// of the first one of those in the order of the results if there are several.
pub open spec fn is_most_recent(
    results: Seq<Result<TrashEntryView, EntryError>>,
    path: Option<Seq<char>>,
    best: int,
) -> bool {
    &&& is_candidate(results, path, best)
    &&& forall|other: int| #[trigger]
        is_candidate(results, path, other) ==> ordinal_at(results, other) < ordinal_at(
            results,
            best,
        ) || (ordinal_at(results, other) == ordinal_at(results, best) && best <= other)
}

/// True when the choice is the one that a restore makes among the results:
/// the most recently trashed candidate, or nothing where there is no candidate.
pub open spec fn is_selected(
    results: Seq<Result<TrashEntryView, EntryError>>,
    path: Option<Seq<char>>,
    chosen: Option<usize>,
) -> bool {
    match chosen {
        Some(best) => is_most_recent(results, path, best as int),
        None => forall|index: int| !#[trigger] is_candidate(results, path, index),
    }
}

/// The text of an optional path.
pub open spec fn path_text(path: Option<&str>) -> Option<Seq<char>> {
    match path {
        Some(path) => Some(path@),
        None => None,
    }
}

/// What a restore takes.
#[derive(Debug, PartialEq, Eq)]
pub enum Selection {
    /// No path was given and the trash has no entry.
    EmptyTrash,
    /// For each path, the index of the entry to restore, or nothing where
    /// the trash has no entry for the path; without any path, one index.
    Entries(Vec<Option<usize>>),
}

impl App {
    /// Return what the program is to do for a command line.
    pub fn run(cli: &Cli, is_terminal: bool) -> (task: Task)
        ensures
            task == spec_run(*cli, is_terminal),
    {
        match &cli.command {
            Command::List(_) => Task::List { quote: is_terminal },
            Command::Put(args) => Task::Put { prompt: args.interactive && is_terminal },
            Command::Restore(args) => Task::Restore { prompt: args.interactive && is_terminal },
            Command::Empty(args) => Task::Empty { prompt: !args.force && is_terminal },
        }
    }

    /// True when a path matches one of the patterns, or there is no pattern.
    pub fn is_listed(patterns: &Vec<String>, path: &str) -> (listed: bool)
        ensures
            listed == spec_is_listed(texts(patterns@), path@),
    {
        if patterns.len() == 0 {
            return true;
        }
        let mut i: usize = 0;
        while i < patterns.len()
            invariant
                i <= patterns@.len(),
                patterns@.len() > 0,
                forall|j: int| 0 <= j < i ==> !glob_matches(#[trigger] texts(patterns@)[j], path@),
            decreases patterns@.len() - i,
        {
            if matches_glob(patterns[i].as_str(), path) {
                assert(glob_matches(texts(patterns@)[i as int], path@));
                return true;
            }
            i += 1;
        }
        false
    }

    /// Return the indices of the entries that a listing shows, in its order:
    /// by path in ascending order, or by deletion time in descending order.
    /// Results in error are discarded.
    pub fn list(results: &Vec<Result<TrashEntry, EntryError>>, args: &ListArgs) -> (listed: Vec<
        usize,
    >)
        ensures
            args.sort_order == SortOrder::Path ==> listed@ == sorted_by_path(
                entry_results(results@),
                spec_list(entry_results(results@), texts(args.patterns@)),
            ),
            args.sort_order == SortOrder::Date ==> listed@.to_multiset() == spec_list(
                entry_results(results@),
                texts(args.patterns@),
            ).to_multiset() && is_sorted_by_date(entry_results(results@), listed@),
    {
        let listed = App::shown(results, &args.patterns);
        match args.sort_order {
            SortOrder::Path => App::sort_by_path(results, &listed),
            SortOrder::Date => App::sort_by_date(results, &listed),
        }
    }

    /// Return the indices of the entries that a listing shows, in ascending
    /// order. Results in error are discarded.
    pub fn shown(results: &Vec<Result<TrashEntry, EntryError>>, patterns: &Vec<String>) -> (listed:
        Vec<usize>)
        ensures
            listed@ == spec_list(entry_results(results@), texts(patterns@)),
    {
        let mut listed: Vec<usize> = Vec::new();
        let mut i: usize = 0;
        let ghost all = entry_results(results@);
        assert(all.take(0) =~= Seq::<Result<TrashEntryView, EntryError>>::empty());
        while i < results.len()
            invariant
                i <= results@.len(),
                all == entry_results(results@),
                listed@ == spec_list(all.take(i as int), texts(patterns@)),
            decreases results@.len() - i,
        {
            let ghost prefix = all.take(i + 1);
            assert(prefix.drop_last() =~= all.take(i as int));
            assert(prefix.last() == all[i as int]);
            if let Ok(entry) = &results[i] {
                if App::is_listed(patterns, entry.original_path()) {
                    listed.push(i);
                }
            }
            i += 1;
        }
        assert(all.take(results@.len() as int) =~= all);
        listed
    }

    /// Return the number that grows with the deletion time of the entry at
    /// an index.
    fn date_key_of(results: &Vec<Result<TrashEntry, EntryError>>, index: usize) -> (key: u64)
        ensures
            key == date_key(entry_results(results@), index),
    {
        if index < results.len() {
            match &results[index] {
                Ok(entry) => entry.deletion_time().ordinal(),
                Err(_) => 0,
            }
        } else {
            0
        }
    }

    /// True when the path of the entry at the first index precedes that of
    /// the entry at the second.
    fn path_precedes_at(
        results: &Vec<Result<TrashEntry, EntryError>>,
        first: usize,
        second: usize,
    ) -> (precedes: bool)
        ensures
            precedes == path_precedes(
                path_at(entry_results(results@), first),
                path_at(entry_results(results@), second),
            ),
    {
        let first_path = App::path_of(results, first);
        let second_path = App::path_of(results, second);
        precedes(first_path, second_path)
    }

    /// Return the original path of the entry at an index.
    fn path_of(results: &Vec<Result<TrashEntry, EntryError>>, index: usize) -> (path: &str)
        ensures
            path@ == path_at(entry_results(results@), index),
    {
        proof {
            reveal_strlit("");
            assert(""@ =~= Seq::<char>::empty());
        }
        if index < results.len() {
            match &results[index] {
                Ok(entry) => entry.original_path(),
                Err(_) => "",
            }
        } else {
            ""
        }
    }

    /// Return the indices in the order of a listing by date: the most
    /// recently trashed entry first.
    pub fn sort_by_date(results: &Vec<Result<TrashEntry, EntryError>>, listed: &Vec<usize>) -> (sorted:
        Vec<usize>)
        ensures
            sorted@.to_multiset() == listed@.to_multiset(),
            is_sorted_by_date(entry_results(results@), sorted@),
    {
        let ghost all = entry_results(results@);
        let mut sorted: Vec<usize> = Vec::new();
        let mut i: usize = 0;
        assert(listed@.take(0) =~= Seq::<usize>::empty());
        while i < listed.len()
            invariant
                i <= listed@.len(),
                all == entry_results(results@),
                sorted@.len() == i,
                sorted@.to_multiset() == listed@.take(i as int).to_multiset(),
                is_sorted_by_date(all, sorted@),
            decreases listed@.len() - i,
        {
            let index = listed[i];
            let key = App::date_key_of(results, index);
            let mut place: usize = 0;
            while place < sorted.len() && !(App::date_key_of(results, sorted[place]) < key || (
            App::date_key_of(results, sorted[place]) == key && index < sorted[place]))
                invariant
                    place <= sorted@.len(),
                    all == entry_results(results@),
                    key == date_key(all, index),
                    forall|before: int|
                        0 <= before < place ==> !listed_before(all, index, #[trigger] sorted@[before]),
                decreases sorted@.len() - place,
            {
                place += 1;
            }
            let ghost before = sorted@;
            sorted.insert(place, index);
            proof {
                to_multiset_insert(before, place as int, index);
                assert(listed@.take(i + 1) =~= listed@.take(i as int).push(index));
                to_multiset_build(listed@.take(i as int), index);
                assert forall|a: int, b: int| 0 <= a < b < sorted@.len() implies !listed_before(
                    all,
                    #[trigger] sorted@[b],
                    #[trigger] sorted@[a],
                ) by {
                    if a < place && b > place {
                        assert(sorted@[a] == before[a]);
                        assert(sorted@[b] == before[b - 1]);
                    } else if a < place && b < place {
                        assert(sorted@[a] == before[a]);
                        assert(sorted@[b] == before[b]);
                    } else if a < place && b == place {
                        assert(sorted@[a] == before[a]);
                    } else if a == place {
                        assert(sorted@[b] == before[b - 1]);
                        assert(listed_before(all, index, before[place as int]));
                        if b - 1 > place {
                            assert(!listed_before(all, before[b - 1], before[place as int]));
                        }
                    } else {
                        assert(sorted@[a] == before[a - 1]);
                        assert(sorted@[b] == before[b - 1]);
                    }
                }
            }
            i += 1;
        }
        assert(listed@.take(listed@.len() as int) =~= listed@);
        sorted
    }

    /// Return the indices in the order of a listing by path.
    pub fn sort_by_path(results: &Vec<Result<TrashEntry, EntryError>>, listed: &Vec<usize>) -> (sorted:
        Vec<usize>)
        ensures
            sorted@ == sorted_by_path(entry_results(results@), listed@),
    {
        let ghost all = entry_results(results@);
        let mut sorted: Vec<usize> = Vec::new();
        let mut i: usize = 0;
        assert(listed@.take(0) =~= Seq::<usize>::empty());
        while i < listed.len()
            invariant
                i <= listed@.len(),
                all == entry_results(results@),
                sorted@.len() == i,
                sorted@ == sorted_by_path(all, listed@.take(i as int)),
            decreases listed@.len() - i,
        {
            let index = listed[i];
            let mut place: usize = 0;
            while place < sorted.len() && !App::path_precedes_at(results, index, sorted[place])
                invariant
                    place <= sorted@.len(),
                    all == entry_results(results@),
                    forall|before: int|
                        0 <= before < place ==> !path_precedes(
                            path_at(all, index),
                            path_at(all, #[trigger] sorted@[before]),
                        ),
                decreases sorted@.len() - place,
            {
                place += 1;
            }
            proof {
                lemma_insert_by_path(all, sorted@, index, place as int);
                let prefix = listed@.take(i + 1);
                assert(prefix.drop_last() =~= listed@.take(i as int));
                assert(prefix.last() == index);
            }
            sorted.insert(place, index);
            i += 1;
        }
        assert(listed@.take(listed@.len() as int) =~= listed@);
        sorted
    }

    /// Return the index of the most recently trashed entry; with a path, of
    /// the most recently trashed entry whose original path is that path.
    pub fn most_recent(results: &Vec<Result<TrashEntry, EntryError>>, path: Option<&str>) -> (best:
        Option<usize>)
        ensures
            is_selected(entry_results(results@), path_text(path), best),
    {
        let ghost all = entry_results(results@);
        let ghost wanted: Option<Seq<char>> = path_text(path);
        let mut best: Option<usize> = None;
        let mut best_ordinal: u64 = 0;
        let mut i: usize = 0;
        while i < results.len()
            invariant
                i <= results@.len(),
                all == entry_results(results@),
                wanted == path_text(path),
                match best {
                    Some(best) => best < i && is_candidate(all, wanted, best as int)
                        && best_ordinal == ordinal_at(all, best as int) && forall|other: int|
                        0 <= other < i && #[trigger] is_candidate(all, wanted, other)
                            ==> ordinal_at(all, other) < ordinal_at(all, best as int) || (
                        ordinal_at(all, other) == ordinal_at(all, best as int) && best <= other),
                    None => forall|other: int|
                        0 <= other < i ==> !#[trigger] is_candidate(all, wanted, other),
                },
            decreases results@.len() - i,
        {
            if let Ok(entry) = &results[i] {
                let wanted_entry = match path {
                    Some(path) => is_same_path(entry.original_path(), path),
                    None => true,
                };
                if wanted_entry {
                    let ordinal = entry.deletion_time().ordinal();
                    assert(is_candidate(all, wanted, i as int));
                    assert(ordinal == ordinal_at(all, i as int));
                    if best.is_none() || ordinal > best_ordinal {
                        best = Some(i);
                        best_ordinal = ordinal;
                    }
                }
            }
            i += 1;
        }
        best
    }

    /// Return what a restore takes: without any path, the most recently
    /// trashed entry; else for each path, made absolute from the current
    /// directory, the most recently trashed entry of that original path.
    pub fn restore(
        results: &Vec<Result<TrashEntry, EntryError>>,
        current_dir: &str,
        paths: &Vec<String>,
    ) -> (selection: Selection)
        ensures
            match selection {
                Selection::EmptyTrash => paths@.len() == 0 && is_selected(
                    entry_results(results@),
                    None,
                    None,
                ),
                Selection::Entries(entries) => if paths@.len() == 0 {
                    entries@.len() == 1 && entries@[0] is Some && is_selected(
                        entry_results(results@),
                        None,
                        entries@[0],
                    )
                } else {
                    entries@.len() == paths@.len() && forall|i: int|
                        0 <= i < paths@.len() ==> is_selected(
                            entry_results(results@),
                            Some(joined_path(current_dir@, paths@[i]@)),
                            #[trigger] entries@[i],
                        )
                },
            },
    {
        if paths.len() == 0 {
            // No paths specified, take the most recent entry
            return match App::most_recent(results, None) {
                Some(best) => {
                    let mut entries: Vec<Option<usize>> = Vec::new();
                    entries.push(Some(best));
                    Selection::Entries(entries)
                },
                None => Selection::EmptyTrash,
            };
        }
        // Path(s) specified, take most recent entry for each path
        let mut entries: Vec<Option<usize>> = Vec::new();
        let mut i: usize = 0;
        while i < paths.len()
            invariant
                i <= paths@.len(),
                entries@.len() == i,
                forall|k: int|
                    0 <= k < i ==> is_selected(
                        entry_results(results@),
                        Some(joined_path(current_dir@, paths@[k]@)),
                        #[trigger] entries@[k],
                    ),
            decreases paths@.len() - i,
        {
            // Make paths absolute
            let path = join(current_dir, paths[i].as_str());
            let best = App::most_recent(results, Some(path.as_str()));
            entries.push(best);
            i += 1;
        }
        Selection::Entries(entries)
    }
}

} // verus!
