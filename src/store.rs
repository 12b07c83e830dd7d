//! The registry: one record file per game, named after its `app_name`.
//!
//! Reading and writing the files happens outside this module; here are the
//! names, the contents and the decisions, together with a model of the
//! registry directory as a map from file name to text.
use vstd::prelude::*;

use crate::codec::{decode_record, decode_text, encode_record, encode_view};
use crate::config::{join, join_path, Config};
use crate::error::GameError;
use crate::record::{GameView, InstalledGame};

verus! {

pub open spec fn record_suffix() -> Seq<char> {
    seq!['.', 'g', 'a', 'm', 'e']
}

/// Name of the file that holds the record of `app_name`.
pub open spec fn record_file_name(app_name: Seq<char>) -> Seq<char> {
    app_name + record_suffix()
}

/// Whether a file of the registry directory is named as a record file.
pub open spec fn is_record_file(name: Seq<char>) -> bool {
    name.len() >= 5 && name.subrange(name.len() - 5, name.len() as int) == record_suffix()
}

/// Name of the registry directory below the data directory.
pub open spec fn registry_name() -> Seq<char> {
    seq!['i', 'n', 's', 't', 'a', 'l', 'l', 'e', 'd']
}

/// What reading one record gives, from the contents of its file (`None`
/// when there is no such file).
pub enum Loaded {
    Found(GameView),
    Missing,
    Corrupt,
}

pub open spec fn load_view(stored: Option<Seq<char>>) -> Loaded {
    match stored {
        None => Loaded::Missing,
        Some(t) => match decode_text(t) {
            Some(g) => Loaded::Found(g),
            None => Loaded::Corrupt,
        },
    }
}

/// The text of an optional string.
pub open spec fn opt_text(o: Option<String>) -> Option<Seq<char>> {
    match o {
        Some(s) => Some(s@),
        None => None,
    }
}

/// The registry directory, as a map from file name to contents.
pub type RegistryDir = Map<Seq<char>, Seq<char>>;

/// Contents of the record file of `app_name`, if there is one.
pub open spec fn stored_record(dir: RegistryDir, app_name: Seq<char>) -> Option<Seq<char>> {
    if dir.contains_key(record_file_name(app_name)) {
        Some(dir[record_file_name(app_name)])
    } else {
        None
    }
}

pub open spec fn dir_after_save(dir: RegistryDir, g: GameView) -> RegistryDir {
    dir.insert(record_file_name(g.app_name), encode_view(g))
}

pub open spec fn dir_after_delete(dir: RegistryDir, app_name: Seq<char>) -> RegistryDir {
    dir.remove(record_file_name(app_name))
}

/// The record a directory entry contributes to a listing: one whose name is
/// a record file name, whose contents could be read and decode.
pub open spec fn entry_record(e: (Seq<char>, Option<Seq<char>>)) -> Option<GameView> {
    if is_record_file(e.0) && e.1 is Some {
        decode_text(e.1->0)
    } else {
        None
    }
}

/// The records of a listing of the registry directory, in listing order.
pub open spec fn listed(entries: Seq<(Seq<char>, Option<Seq<char>>)>) -> Seq<GameView>
    decreases entries.len(),
{
    if entries.len() == 0 {
        Seq::empty()
    } else {
        let rest = listed(entries.drop_last());
        match entry_record(entries.last()) {
            Some(g) => rest.push(g),
            None => rest,
        }
    }
}

/// Saving a record and then loading its name gives the record back.
pub proof fn lemma_save_then_load(dir: RegistryDir, g: GameView)
    ensures
        load_view(stored_record(dir_after_save(dir, g), g.app_name)) == Loaded::Found(g),
{
    crate::codec::lemma_decode_encode(g);
}

/// Loading a name that has no record file reports it missing.
pub proof fn lemma_load_never_saved(dir: RegistryDir, app_name: Seq<char>)
    requires
        !dir.contains_key(record_file_name(app_name)),
    ensures
        load_view(stored_record(dir, app_name)) == Loaded::Missing,
{
}

/// Deleting a record that does not exist leaves the directory unchanged.
pub proof fn lemma_delete_absent(dir: RegistryDir, app_name: Seq<char>)
    requires
        !dir.contains_key(record_file_name(app_name)),
    ensures
        dir_after_delete(dir, app_name) == dir,
{
    assert(dir_after_delete(dir, app_name) =~= dir);
}

/// After a record is deleted, loading its name reports it missing.
pub proof fn lemma_delete_then_load(dir: RegistryDir, app_name: Seq<char>)
    ensures
        load_view(stored_record(dir_after_delete(dir, app_name), app_name)) == Loaded::Missing,
{
}

/// Listing an empty directory gives no records.
pub proof fn lemma_list_empty()
    ensures
        listed(Seq::empty()) == Seq::<GameView>::empty(),
{
}

proof fn lemma_listed_concat(
    a: Seq<(Seq<char>, Option<Seq<char>>)>,
    b: Seq<(Seq<char>, Option<Seq<char>>)>,
)
    ensures
        listed(a + b) == listed(a) + listed(b),
    decreases b.len(),
{
    if b.len() == 0 {
        assert(a + b =~= a);
        assert(listed(a) + listed(b) =~= listed(a));
    } else {
        lemma_listed_concat(a, b.drop_last());
        assert((a + b).drop_last() =~= a + b.drop_last());
        assert((a + b).last() == b.last());
        assert((listed(a) + listed(b.drop_last())).push(entry_record(b.last())->0) =~= listed(a)
            + listed(b.drop_last()).push(entry_record(b.last())->0));
    }
}

proof fn lemma_listed_all_valid(entries: Seq<(Seq<char>, Option<Seq<char>>)>)
    requires
        forall|i: int| 0 <= i < entries.len() ==> #[trigger] entry_record(entries[i]) is Some,
    ensures
        listed(entries) == entries.map_values(|e: (Seq<char>, Option<Seq<char>>)| entry_record(e)->0),
    decreases entries.len(),
{
    if entries.len() > 0 {
        let p = entries.drop_last();
        assert forall|i: int| 0 <= i < p.len() implies #[trigger] entry_record(p[i]) is Some by {
            assert(p[i] == entries[i]);
        }
        lemma_listed_all_valid(p);
        assert(entry_record(entries[entries.len() - 1]) is Some);
        assert(entries.map_values(|e: (Seq<char>, Option<Seq<char>>)| entry_record(e)->0)
            =~= p.map_values(|e: (Seq<char>, Option<Seq<char>>)| entry_record(e)->0).push(
            entry_record(entries.last())->0,
        ));
    }
}

/// A listing that holds valid record files and, at any place, one file that
/// does not decode as a record gives exactly the valid records, in order.
pub proof fn lemma_list_skips_corrupt(
    entries: Seq<(Seq<char>, Option<Seq<char>>)>,
    k: int,
    bad: (Seq<char>, Option<Seq<char>>),
)
    requires
        forall|i: int| 0 <= i < entries.len() ==> #[trigger] entry_record(entries[i]) is Some,
        entry_record(bad) is None,
        0 <= k <= entries.len(),
    ensures
        listed(entries.insert(k, bad)) == entries.map_values(
            |e: (Seq<char>, Option<Seq<char>>)| entry_record(e)->0,
        ),
{
    let a = entries.take(k);
    let b = entries.skip(k);
    assert(entries.insert(k, bad) =~= a + seq![bad] + b);
    assert(entries =~= a + b);
    lemma_listed_concat(a + seq![bad], b);
    lemma_listed_concat(a, seq![bad]);
    lemma_listed_concat(a, b);
    assert(seq![bad].drop_last() =~= Seq::<(Seq<char>, Option<Seq<char>>)>::empty());
    assert(seq![bad].last() == bad);
    assert(listed(Seq::<(Seq<char>, Option<Seq<char>>)>::empty()) == Seq::<GameView>::empty());
    assert(listed(seq![bad]) == Seq::<GameView>::empty());
    assert(listed(a) + listed(seq![bad]) =~= listed(a));
    lemma_listed_all_valid(entries);
}

/// A file name and text to be written into the registry directory.
pub struct RecordFile {
    pub name: String,
    pub text: String,
}

/// One file found in the registry directory: its name, and its contents
/// when they could be read as text.
pub struct RegistryEntry {
    pub name: String,
    pub contents: Option<String>,
}

impl View for RegistryEntry {
    type V = (Seq<char>, Option<Seq<char>>);

    open spec fn view(&self) -> (Seq<char>, Option<Seq<char>>) {
        (self.name@, opt_text(self.contents))
    }
}

/// Name of the record file of `app_name`.
pub fn record_file_for(app_name: &str) -> (r: String)
    ensures
        r@ == record_file_name(app_name@),
{
    let mut out = String::from_str(app_name);
    out.append(".game");
    proof {
        reveal_strlit(".game");
    }
    assert(out@ =~= app_name@ + record_suffix());
    out
}

/// Whether `name` is named as a record file.
pub fn has_record_suffix(name: &str) -> (r: bool)
    ensures
        r == is_record_file(name@),
{
    let n = name.unicode_len();
    if n < 5 {
        return false;
    }
    let tail = String::from_str(name.substring_char(n - 5, n));
    let suffix = String::from_str(".game");
    proof {
        reveal_strlit(".game");
    }
    assert(suffix@ =~= record_suffix());
    tail == suffix
}

impl InstalledGame {
    /// The registry directory: `installed` inside the configured data directory.
    pub fn installed_games_dir(config: &Config) -> (r: String)
        ensures
            r@ == join_path(config.data_dir@, registry_name()),
    {
        proof {
            reveal_strlit("installed");
        }
        assert("installed"@ =~= registry_name());
        join(config.data_dir.as_str(), "installed")
    }

    /// The file that saving this record writes into the registry directory:
    /// named after `app_name`, holding the record's stored text. Writing it
    /// replaces any earlier record of the same name.
    pub fn save(&self) -> (r: RecordFile)
        ensures
            r.name@ == record_file_name(self.app_name@),
            r.text@ == encode_view(self@),
    {
        RecordFile { name: record_file_for(self.app_name.as_str()), text: encode_record(self) }
    }

    /// The name of the record file that deleting this record removes.
    pub fn delete(&self) -> (r: String)
        ensures
            r@ == record_file_name(self.app_name@),
    {
        record_file_for(self.app_name.as_str())
    }

    /// What loading a record gives, from the contents of its record file
    /// (`None` when the file does not exist).
    pub fn load(stored: Option<String>) -> (r: Result<InstalledGame, GameError>)
        ensures
            match load_view(opt_text(stored)) {
                Loaded::Found(g) => r is Ok && r->Ok_0@ == g,
                Loaded::Missing => r is Err && r->Err_0 is NotFound,
                Loaded::Corrupt => r is Err && r->Err_0 is CorruptRecord,
            },
    {
        match stored {
            None => Err(GameError::NotFound),
            Some(text) => match decode_record(text.as_str()) {
                Some(g) => Ok(g),
                None => Err(GameError::CorruptRecord),
            },
        }
    }

    /// The records among the files of the registry directory, in the order
    /// of `entries`. Files not named as records, unreadable ones and ones
    /// that do not decode are left out.
    pub fn list_installed(entries: &Vec<RegistryEntry>) -> (r: Vec<InstalledGame>)
        ensures
            r@.map_values(|g: InstalledGame| g@) == listed(
                entries@.map_values(|e: RegistryEntry| e@),
            ),
    {
        let ghost all = entries@.map_values(|e: RegistryEntry| e@);
        let mut out: Vec<InstalledGame> = Vec::new();
        let mut i: usize = 0;
        assert(all.take(0) =~= Seq::<(Seq<char>, Option<Seq<char>>)>::empty());
        assert(out@.map_values(|g: InstalledGame| g@) =~= Seq::<GameView>::empty());
        while i < entries.len()
            invariant
                all == entries@.map_values(|e: RegistryEntry| e@),
                i <= entries.len(),
                out@.map_values(|g: InstalledGame| g@) == listed(all.take(i as int)),
            decreases entries.len() - i,
        {
            let e = &entries[i];
            proof {
                assert(all.take(i + 1).drop_last() =~= all.take(i as int));
                assert(all.take(i + 1).last() == e@);
            }
            let ghost before = out@.map_values(|g: InstalledGame| g@);
            if has_record_suffix(e.name.as_str()) {
                match &e.contents {
                    Some(text) => match decode_record(text.as_str()) {
                        Some(g) => {
                            out.push(g);
                            assert(out@.map_values(|g: InstalledGame| g@) =~= before.push(
                                out@[out@.len() - 1]@,
                            ));
                        },
                        None => {},
                    },
                    None => {},
                }
            }
            i += 1;
        }
        assert(all.take(i as int) =~= all);
        out
    }
}

} // verus!
