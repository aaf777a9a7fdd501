//! The registry of settings files.
//!
//! A settings file is known by its ID: the first file has ID `0`, every file
//! added takes the next number, and no file ever leaves. So an ID, once given,
//! always names the same file.
use std::collections::hash_map::Entry;
use std::collections::HashMap;
use vstd::prelude::*;
use vstd::std_specs::hash::spec_hash_map_len;
use crate::config::PluginConfig;
use crate::dot_notation::{
    get_dot_notation,
    path_get,
    path_segments,
    path_set,
    set_dot_notation,
};
use crate::error::SettingsError;
use crate::json::parsed_json;
use crate::scope::{joined_text, resolve_in_scope, stays_in_scope};
use crate::settings::{SettingsFile, SettingsFileOptions, ensured, initial_tree, text_after_set};
use crate::storage::{encode, encoded, load_settings_file};
use crate::tree::{TreeValue, TreeView};

verus! {

/// A registered settings file with the settings last loaded from it, if any.
struct Document {
    file: SettingsFile,
    cache: Option<TreeValue>,
}

/// The settings files that the plugin knows, each under its ID, and its
/// configuration.
pub struct PluginStateData {
    plugin_config: PluginConfig,
    documents: HashMap<usize, Document>,
}

/// The IDs in use are the numbers below the number of documents.
spec fn dense(documents: Map<usize, Document>) -> bool {
    forall|id: usize| documents.contains_key(id) <==> id < documents.len()
}

/// The settings files of the documents, in the order of their IDs.
spec fn files_of(documents: Map<usize, Document>) -> Seq<SettingsFile> {
    Seq::new(documents.len(), |i: int| documents[i as usize].file)
}

/// What is cached for the documents, in the order of their IDs.
spec fn cache_of(documents: Map<usize, Document>) -> Seq<Option<TreeView>> {
    Seq::new(documents.len(), |i: int| cached(documents[i as usize]))
}

/// What is cached for a document.
spec fn cached(document: Document) -> Option<TreeView> {
    match document.cache {
        Some(settings) => Some(settings@),
        None => None,
    }
}

/// A document put in the place of another keeps the IDs as they are and
/// changes the one place.
proof fn lemma_replace(documents: Map<usize, Document>, id: usize, document: Document)
    requires
        dense(documents),
        documents.dom().finite(),
        documents.len() <= usize::MAX,
        documents.contains_key(id),
    ensures
        dense(documents.insert(id, document)),
        files_of(documents.insert(id, document)) == files_of(documents).update(
            id as int,
            document.file,
        ),
        cache_of(documents.insert(id, document)) == cache_of(documents).update(
            id as int,
            cached(document),
        ),
{
    let after = documents.insert(id, document);
    assert(after.dom() =~= documents.dom());
    assert(files_of(after) =~= files_of(documents).update(id as int, document.file));
    assert(cache_of(after) =~= cache_of(documents).update(id as int, cached(document)));
}

/// A document added under the next ID comes last.
proof fn lemma_append(documents: Map<usize, Document>, id: usize, document: Document)
    requires
        dense(documents),
        documents.dom().finite(),
        id == documents.len(),
    ensures
        dense(documents.insert(id, document)),
        files_of(documents.insert(id, document)) == files_of(documents).push(document.file),
        cache_of(documents.insert(id, document)) == cache_of(documents).push(cached(document)),
{
    let after = documents.insert(id, document);
    assert(!documents.contains_key(id));
    assert(after.len() == documents.len() + 1);
    assert(files_of(after) =~= files_of(documents).push(document.file));
    assert(cache_of(after) =~= cache_of(documents).push(cached(document)));
}

/// The document under an ID, to be changed in place, if there is one.
fn slot(documents: &mut HashMap<usize, Document>, id: usize) -> (r: Option<&mut Document>)
    ensures
        match r {
            Some(document) => old(documents)@.contains_key(id) && *document == old(documents)@[id]
                && final(documents)@ == old(documents)@.insert(id, *final(document)),
            None => !old(documents)@.contains_key(id) && final(documents)@ == old(documents)@,
        },
{
    broadcast use vstd::std_specs::hash::group_hash_axioms;

    match documents.entry(id) {
        Entry::Occupied(occupied) => Some(occupied.into_mut()),
        Entry::Vacant(_) => None,
    }
}

/// The limit is set and `count` is beyond it.
pub open spec fn over_limit(files_limit: usize, count: nat) -> bool {
    files_limit != 0 && count > files_limit
}

/// The limit is set and `count` has reached it.
pub open spec fn limit_reached(files_limit: usize, count: nat) -> bool {
    files_limit != 0 && count >= files_limit
}

/// `id` is the first place in `files` with this path.
pub open spec fn is_first_with_path(files: Seq<SettingsFile>, file_path: Seq<char>, id: int) -> bool {
    &&& 0 <= id < files.len()
    &&& files[id].file_path@ == file_path
    &&& forall|j: int| 0 <= j < id ==> (#[trigger] files[j]).file_path@ != file_path
}

/// The ID that a caller means: the one given, or `0`, the first settings file,
/// where none is given.
pub open spec fn chosen_id(file_id: Option<usize>) -> usize {
    match file_id {
        Some(id) => id,
        None => 0,
    }
}

/// Why a settings file may not be added at `scoped_file_path` to a registry
/// that holds `count` files; `None` where it may. The permission is looked at
/// first, then the limit, then the path.
pub open spec fn refusal(config: PluginConfig, count: nat, scoped_file_path: Seq<char>) -> Option<
    SettingsError,
> {
    if !config.allow_file_addition {
        Some(SettingsError::Permission)
    } else if limit_reached(config.files_limit, count) {
        Some(SettingsError::LimitExceeded)
    } else if !stays_in_scope(config.scope@, scoped_file_path) {
        Some(SettingsError::ScopeViolation)
    } else {
        None
    }
}

impl PluginStateData {
    /// The registry is in order: the IDs in use are `0` up to the number of
    /// settings files. Every registry that `new` gives is, and every
    /// operation keeps it so.
    pub closed spec fn wf(&self) -> bool {
        dense(self.documents@)
    }

    /// The configuration.
    pub closed spec fn config(&self) -> PluginConfig {
        self.plugin_config
    }

    /// The settings files, each at its ID.
    pub closed spec fn files(&self) -> Seq<SettingsFile> {
        files_of(self.documents@)
    }

    /// For each settings file the settings last loaded from it, if any.
    pub closed spec fn cache(&self) -> Seq<Option<TreeView>> {
        cache_of(self.documents@)
    }

    /// The document under an ID, if there is one.
    fn document(&self, id: usize) -> (r: Option<&Document>)
        requires
            self.wf(),
        ensures
            id < self.files().len() ==> (r matches Some(document) && document.file
                == self.files()[id as int] && cached(*document) == self.cache()[id as int]
                && *document == self.documents@[id]),
            id >= self.files().len() ==> r is None,
    {
        broadcast use vstd::std_specs::hash::group_hash_axioms;

        self.documents.get(&id)
    }

    /// The cache has one place for each settings file.
    pub proof fn cache_follows_files(&self)
        ensures
            self.cache().len() == self.files().len(),
    {
    }

    /// The configuration.
    pub fn plugin_config(&self) -> (r: &PluginConfig)
        ensures
            *r == self.config(),
    {
        &self.plugin_config
    }

    /// The number of settings files, which is the next ID to be given.
    pub fn len(&self) -> (r: usize)
        ensures
            r == self.files().len(),
    {
        broadcast use vstd::std_specs::hash::group_hash_axioms;

        self.documents.len()
    }

    /// Registers a settings file and gives its ID, the next one not yet used.
    pub fn add_settings_file(&mut self, settings_file: SettingsFile) -> (id: usize)
        requires
            old(self).wf(),
        ensures
            final(self).wf(),
            id == old(self).files().len(),
            final(self).files() == old(self).files().push(settings_file),
            final(self).cache() == old(self).cache().push(None),
            final(self).config() == old(self).config(),
    {
        broadcast use vstd::std_specs::hash::group_hash_axioms;

        let id = self.documents.len();
        let document = Document { file: settings_file, cache: None };
        proof {
            lemma_append(self.documents@, id, document);
        }
        self.documents.insert(id, document);
        id
    }

    /// The settings file with this ID, to be changed in place. Fails with
    /// `NotFound` exactly where no file has the ID.
    pub fn get_settings_file_mut(&mut self, id: usize) -> (r: Result<&mut SettingsFile, SettingsError>)
        requires
            old(self).wf(),
        ensures
            final(self).wf(),
            id < old(self).files().len() ==> r is Ok && *r->Ok_0 == old(self).files()[id as int]
                && final(self).files() == old(self).files().update(id as int, *final(r->Ok_0))
                && final(self).cache() == old(self).cache() && final(self).config() == old(self).config(),
            id >= old(self).files().len() ==> r == Err::<&mut SettingsFile, SettingsError>(
                SettingsError::NotFound(id),
            ) && *final(self) == *old(self),
    {
        broadcast use vstd::std_specs::hash::group_hash_axioms;

        if id >= self.len() {
            return Err(SettingsError::NotFound(id));
        }
        let ghost before = self.documents@;
        assert(before.len() == spec_hash_map_len(&self.documents));
        assert forall|document: Document|
            dense(#[trigger] before.insert(id, document)) && files_of(
                before.insert(id, document),
            ) == files_of(before).update(id as int, document.file) && cache_of(
                before.insert(id, document),
            ) == cache_of(before).update(id as int, cached(document)) by {
            lemma_replace(before, id, document);
        }
        match slot(&mut self.documents, id) {
            Some(document) => Ok(&mut document.file),
            None => Err(SettingsError::NotFound(id)),
        }
    }

    /// The settings file with this ID. Fails with `NotFound` exactly where no
    /// file has the ID.
    pub fn get_settings_file(&self, id: usize) -> (r: Result<&SettingsFile, SettingsError>)
        requires
            self.wf(),
        ensures
            id < self.files().len() ==> r == Ok::<&SettingsFile, SettingsError>(
                &self.files()[id as int],
            ),
            id >= self.files().len() ==> r == Err::<&SettingsFile, SettingsError>(
                SettingsError::NotFound(id),
            ),
    {
        match self.document(id) {
            Some(document) => Ok(&document.file),
            None => Err(SettingsError::NotFound(id)),
        }
    }

    /// The ID of the first settings file with exactly this path, if there is
    /// one.
    pub fn find_settings_file(&self, file_path: &str) -> (r: Option<usize>)
        requires
            self.wf(),
        ensures
            match r {
                Some(id) => is_first_with_path(self.files(), file_path@, id as int),
                None => forall|j: int|
                    0 <= j < self.files().len() ==> (#[trigger] self.files()[j]).file_path@
                        != file_path@,
            },
    {
        let wanted = file_path.to_owned();
        let count = self.len();
        let mut i: usize = 0;
        while i < count
            invariant
                self.wf(),
                i <= count == self.files().len(),
                wanted@ == file_path@,
                forall|j: int| 0 <= j < i ==> (#[trigger] self.files()[j]).file_path@ != file_path@,
            decreases count - i,
        {
            match self.document(i) {
                Some(document) => {
                    if document.file.file_path == wanted {
                        return Some(i);
                    }
                },
                None => {},
            }
            i = i + 1;
        }
        None
    }

    /// Makes the registry with its first settings files, which take the IDs
    /// from `0` on. Fails with `LimitExceeded` exactly where a limit is set
    /// and there are more files than it allows.
    pub fn new(plugin_config: PluginConfig, initial_settings_files: Vec<SettingsFile>) -> (r: Result<
        PluginStateData,
        SettingsError,
    >)
        ensures
            match r {
                Ok(state) => !over_limit(plugin_config.files_limit, initial_settings_files@.len())
                    && state.wf() && state.config() == plugin_config && state.files() == initial_settings_files@
                    && state.cache() == Seq::new(
                    initial_settings_files@.len(),
                    |i: int| None::<TreeView>,
                ),
                Err(error) => over_limit(plugin_config.files_limit, initial_settings_files@.len())
                    && error is LimitExceeded,
            },
    {
        if plugin_config.files_limit != 0 && initial_settings_files.len()
            > plugin_config.files_limit {
            return Err(SettingsError::LimitExceeded);
        }
        broadcast use vstd::std_specs::hash::group_hash_axioms;

        let mut state = PluginStateData { plugin_config, documents: HashMap::new() };
        assert(state.files() =~= initial_settings_files@.take(0));
        assert(state.cache() =~= Seq::new(0, |i: int| None::<TreeView>));
        let mut i: usize = 0;
        while i < initial_settings_files.len()
            invariant
                i <= initial_settings_files.len(),
                state.wf(),
                state.config() == plugin_config,
                state.files() == initial_settings_files@.take(i as int),
                state.cache() == Seq::new(i as nat, |i: int| None::<TreeView>),
            decreases initial_settings_files.len() - i,
        {
            state.add_settings_file(initial_settings_files[i].clone());
            assert(state.files() =~= initial_settings_files@.take(i + 1));
            assert(state.cache() =~= Seq::new((i + 1) as nat, |i: int| None::<TreeView>));
            i = i + 1;
        }
        assert(initial_settings_files@.take(i as int) =~= initial_settings_files@);
        Ok(state)
    }

    /// The ID that a caller means, who may have given none.
    pub fn choose_id(file_id: Option<usize>) -> (id: usize)
        ensures
            id == chosen_id(file_id),
    {
        match file_id {
            Some(id) => id,
            None => 0,
        }
    }

    /// Resolves a path from the scope directory. Fails with `ScopeViolation`
    /// exactly where the path leaves the scope.
    pub fn scoped_path(&self, scoped_file_path: &str) -> (r: Result<String, SettingsError>)
        ensures
            match r {
                Ok(file_path) => stays_in_scope(self.config().scope@, scoped_file_path@)
                    && file_path@ == joined_text(self.config().scope@, scoped_file_path@),
                Err(error) => !stays_in_scope(self.config().scope@, scoped_file_path@)
                    && error is ScopeViolation,
            },
    {
        match resolve_in_scope(self.plugin_config.scope.as_str(), scoped_file_path) {
            Some(file_path) => Ok(file_path),
            None => Err(SettingsError::ScopeViolation),
        }
    }

    /// Whether a caller from outside may have a settings file added at this
    /// path, given from the scope directory; where so, the resolved path.
    /// Fails with `Permission` where files may not be added from outside, else
    /// with `LimitExceeded` where a limit is set and reached, else with
    /// `ScopeViolation` where the path leaves the scope.
    pub fn check_addition(&self, scoped_file_path: &str) -> (r: Result<String, SettingsError>)
        requires
            self.wf(),
        ensures
            match refusal(self.config(), self.files().len(), scoped_file_path@) {
                Some(error) => r == Err::<String, SettingsError>(error),
                None => r matches Ok(file_path) && file_path@ == joined_text(
                    self.config().scope@,
                    scoped_file_path@,
                ),
            },
    {
        if !self.plugin_config.allow_file_addition {
            return Err(SettingsError::Permission);
        }
        if self.plugin_config.files_limit != 0 && self.len()
            >= self.plugin_config.files_limit {
            return Err(SettingsError::LimitExceeded);
        }
        self.scoped_path(scoped_file_path)
    }

    /// Adds a settings file for a caller from outside, and says what has to be
    /// written so that the file exists. `present` tells whether the file is
    /// there already.
    ///
    /// Fails with `Permission` where files may not be added from outside, else
    /// with `LimitExceeded` where a limit is set and reached, else with
    /// `ScopeViolation` where the path leaves the scope, else with `Serialize`
    /// where the text of the default settings cannot be had. Whenever it
    /// fails, the registry is unchanged.
    pub fn add_scoped_document(&mut self, options: SettingsFileOptions, present: bool) -> (r: Result<
        (usize, Option<String>),
        SettingsError,
    >)
        requires
            old(self).wf(),
        ensures
            final(self).wf(),
            match refusal(
                old(self).config(),
                old(self).files().len(),
                options.scoped_file_path@,
            ) {
                Some(error) => r == Err::<(usize, Option<String>), SettingsError>(error) && *final(self) == *old(self),
                None => match ensured(
                    present,
                    initial_tree(options.default_settings),
                    options.prettify == Some(true),
                ) {
                    None => r matches Err(SettingsError::Serialize(_)) && *final(self) == *old(self),
                    Some(text) => r matches Ok((id, to_write)) && id == old(self).files().len() && (
                    match text {
                        Some(text) => to_write matches Some(written) && written@ == text,
                        None => to_write is None,
                    }) && final(self).files().len() == id + 1 && final(self).files().take(
                        id as int,
                    ) == old(self).files() && final(self).files()[id as int].file_path@
                        == joined_text(old(self).config().scope@, options.scoped_file_path@)
                        && final(self).files()[id as int].prettify == (options.prettify == Some(
                        true,
                    )) && final(self).cache() == old(self).cache().push(None) && final(self).config() == old(self).config(),
                },
            },
    {
        let file_path = match self.check_addition(options.scoped_file_path.as_str()) {
            Ok(file_path) => file_path,
            Err(error) => {
                return Err(error);
            },
        };
        let (settings_file, to_write) = match SettingsFile::new(
            file_path,
            options.prettify,
            options.default_settings,
            present,
        ) {
            Ok(made) => made,
            Err(error) => {
                return Err(error);
            },
        };
        let id = self.add_settings_file(settings_file);
        Ok((id, to_write))
    }

    /// The ID of the settings file at a path given from the scope directory,
    /// if one is registered there. Fails with `ScopeViolation` exactly where
    /// the path leaves the scope.
    pub fn get_settings_file_id(&self, scoped_file_path: &str) -> (r: Result<
        Option<usize>,
        SettingsError,
    >)
        requires
            self.wf(),
        ensures
            match r {
                Ok(found) => stays_in_scope(self.config().scope@, scoped_file_path@) && (
                match found {
                    Some(id) => is_first_with_path(
                        self.files(),
                        joined_text(self.config().scope@, scoped_file_path@),
                        id as int,
                    ),
                    None => forall|j: int|
                        0 <= j < self.files().len() ==> (#[trigger] self.files()[j]).file_path@
                            != joined_text(self.config().scope@, scoped_file_path@),
                }),
                Err(error) => !stays_in_scope(self.config().scope@, scoped_file_path@)
                    && error is ScopeViolation,
            },
    {
        let file_path = self.scoped_path(scoped_file_path)?;
        Ok(self.find_settings_file(file_path.as_str()))
    }

    /// The value at the key in the settings last loaded from the file, read
    /// without a look at the file. Fails with `NotFound` where no file has the
    /// ID, else with `NotLoaded` where nothing was loaded from it yet.
    pub fn read_cached(&self, key: &str, file_id: Option<usize>) -> (r: Result<TreeValue, SettingsError>)
        requires
            self.wf(),
        ensures
            chosen_id(file_id) >= self.files().len() ==> (r matches Err(SettingsError::NotFound(id))
                && id == chosen_id(file_id)),
            chosen_id(file_id) < self.files().len() ==> (match self.cache()[chosen_id(file_id) as int] {
                Some(tree) => r matches Ok(value) && value@ == path_get(tree, path_segments(key@)),
                None => r matches Err(SettingsError::NotLoaded(id)) && id == chosen_id(file_id),
            }),
    {
        let id = Self::choose_id(file_id);
        let document = match self.document(id) {
            Some(document) => document,
            None => {
                return Err(SettingsError::NotFound(id));
            },
        };
        match &document.cache {
            Some(settings) => get_dot_notation(settings, key),
            None => Err(SettingsError::NotLoaded(id)),
        }
    }

    /// Sets the value at the key in the settings last loaded from the file,
    /// and leaves the file as it is: the two differ until `flush`. Fails with
    /// `NotFound` where no file has the ID, else with `NotLoaded` where
    /// nothing was loaded from it yet. Whenever it fails, the registry is
    /// unchanged.
    pub fn write_cached(&mut self, key: &str, value: TreeValue, file_id: Option<usize>) -> (r: Result<
        (),
        SettingsError,
    >)
        requires
            old(self).wf(),
        ensures
            final(self).wf(),
            final(self).files() == old(self).files(),
            final(self).config() == old(self).config(),
            chosen_id(file_id) >= old(self).files().len() ==> (r matches Err(
                SettingsError::NotFound(id),
            ) && id == chosen_id(file_id)) && final(self).cache() == old(self).cache(),
            chosen_id(file_id) < old(self).files().len() ==> (match old(self).cache()[chosen_id(file_id) as int] {
                Some(tree) => r is Ok && final(self).cache() == old(self).cache().update(
                    chosen_id(file_id) as int,
                    Some(path_set(tree, path_segments(key@), value@)),
                ),
                None => (r matches Err(SettingsError::NotLoaded(id)) && id == chosen_id(file_id))
                    && final(self).cache() == old(self).cache(),
            }),
    {
        broadcast use vstd::std_specs::hash::group_hash_axioms;

        let id = Self::choose_id(file_id);
        match self.document(id) {
            Some(document) => {
                if document.cache.is_none() {
                    return Err(SettingsError::NotLoaded(id));
                }
            },
            None => {
                return Err(SettingsError::NotFound(id));
            },
        }
        let ghost before = self.documents@;
        assert(before.len() == spec_hash_map_len(&self.documents));
        match slot(&mut self.documents, id) {
            Some(document) => match &mut document.cache {
                Some(settings) => {
                    let _ = set_dot_notation(settings, key, value);
                },
                None => {},
            },
            None => {},
        }
        proof {
            lemma_replace(before, id, self.documents@[id]);
            assert(self.files() =~= old(self).files());
        }
        Ok(())
    }

    /// The text to write to the file so that it holds the settings last loaded
    /// or set in the cache. Fails with `NotFound` where no file has the ID,
    /// else with `NotLoaded` where nothing was loaded from it yet, else with
    /// `Serialize` where the encoder gives an error.
    pub fn flush(&self, file_id: Option<usize>) -> (r: Result<String, SettingsError>)
        requires
            self.wf(),
        ensures
            chosen_id(file_id) >= self.files().len() ==> (r matches Err(SettingsError::NotFound(id))
                && id == chosen_id(file_id)),
            chosen_id(file_id) < self.files().len() ==> (match self.cache()[chosen_id(file_id) as int] {
                Some(tree) => match encoded(
                    tree,
                    self.files()[chosen_id(file_id) as int].prettify,
                ) {
                    Some(text) => r matches Ok(written) && written@ == text,
                    None => r matches Err(SettingsError::Serialize(_)),
                },
                None => r matches Err(SettingsError::NotLoaded(id)) && id == chosen_id(file_id),
            }),
    {
        let id = Self::choose_id(file_id);
        let document = match self.document(id) {
            Some(document) => document,
            None => {
                return Err(SettingsError::NotFound(id));
            },
        };
        match &document.cache {
            Some(settings) => encode(settings, document.file.prettify),
            None => Err(SettingsError::NotLoaded(id)),
        }
    }

    /// Forgets the settings last loaded and takes those that `contents`, the
    /// text of the file, holds. Fails with `NotFound` where no file has the
    /// ID, else with `Parse` where the text is not a JSON document. Whenever
    /// it fails, the registry is unchanged.
    pub fn reload(&mut self, contents: &str, file_id: Option<usize>) -> (r: Result<(), SettingsError>)
        requires
            old(self).wf(),
        ensures
            final(self).wf(),
            final(self).files() == old(self).files(),
            final(self).config() == old(self).config(),
            chosen_id(file_id) >= old(self).files().len() ==> (r matches Err(
                SettingsError::NotFound(id),
            ) && id == chosen_id(file_id)) && final(self).cache() == old(self).cache(),
            chosen_id(file_id) < old(self).files().len() ==> (match parsed_json(contents@) {
                Some(tree) => r is Ok && final(self).cache() == old(self).cache().update(
                    chosen_id(file_id) as int,
                    Some(tree),
                ),
                None => r matches Err(SettingsError::Parse(_)) && final(self).cache() == old(self).cache(),
            }),
    {
        let id = Self::choose_id(file_id);
        if id >= self.len() {
            return Err(SettingsError::NotFound(id));
        }
        let settings = load_settings_file(contents)?;
        self.store(id, settings);
        Ok(())
    }

    /// The value at the key in the file as it is now: `contents`, the text of
    /// the file, is loaded afresh and kept as the cache. Fails with `NotFound`
    /// where no file has the ID, else with `Parse` where the text is not a
    /// JSON document. Whenever it fails, the registry is unchanged.
    pub fn read_through(&mut self, key: &str, contents: &str, file_id: Option<usize>) -> (r: Result<
        TreeValue,
        SettingsError,
    >)
        requires
            old(self).wf(),
        ensures
            final(self).wf(),
            final(self).files() == old(self).files(),
            final(self).config() == old(self).config(),
            chosen_id(file_id) >= old(self).files().len() ==> (r matches Err(
                SettingsError::NotFound(id),
            ) && id == chosen_id(file_id)) && final(self).cache() == old(self).cache(),
            chosen_id(file_id) < old(self).files().len() ==> (match parsed_json(contents@) {
                Some(tree) => (r matches Ok(value) && value@ == path_get(
                    tree,
                    path_segments(key@),
                )) && final(self).cache() == old(self).cache().update(
                    chosen_id(file_id) as int,
                    Some(tree),
                ),
                None => r matches Err(SettingsError::Parse(_)) && final(self).cache() == old(self).cache(),
            }),
    {
        let id = Self::choose_id(file_id);
        if id >= self.len() {
            return Err(SettingsError::NotFound(id));
        }
        let settings = load_settings_file(contents)?;
        let value = get_dot_notation(&settings, key);
        self.store(id, settings);
        value
    }

    /// Sets the value at the key in the file as it is now, and gives the text
    /// to write to the file: `contents`, the text of the file, is loaded
    /// afresh, changed, and kept as the cache. Fails with `NotFound` where no
    /// file has the ID, else with `Parse` where the text is not a JSON
    /// document, else with `Serialize` where the encoder gives an error for
    /// the new settings. Whenever it fails, the registry is unchanged.
    pub fn write_through(
        &mut self,
        key: &str,
        value: TreeValue,
        contents: &str,
        file_id: Option<usize>,
    ) -> (r: Result<String, SettingsError>)
        requires
            old(self).wf(),
        ensures
            final(self).wf(),
            final(self).files() == old(self).files(),
            final(self).config() == old(self).config(),
            chosen_id(file_id) >= old(self).files().len() ==> (r matches Err(
                SettingsError::NotFound(id),
            ) && id == chosen_id(file_id)) && final(self).cache() == old(self).cache(),
            chosen_id(file_id) < old(self).files().len() ==> (match parsed_json(contents@) {
                Some(tree) => match text_after_set(
                    tree,
                    key@,
                    value@,
                    old(self).files()[chosen_id(file_id) as int].prettify,
                ) {
                    Some(text) => (r matches Ok(written) && written@ == text) && final(self).cache() == old(self).cache().update(
                        chosen_id(file_id) as int,
                        Some(path_set(tree, path_segments(key@), value@)),
                    ),
                    None => r matches Err(SettingsError::Serialize(_)) && final(self).cache()
                        == old(self).cache(),
                },
                None => r matches Err(SettingsError::Parse(_)) && final(self).cache() == old(self).cache(),
            }),
    {
        let id = Self::choose_id(file_id);
        let prettify = match self.document(id) {
            Some(document) => document.file.prettify,
            None => {
                return Err(SettingsError::NotFound(id));
            },
        };
        let mut settings = load_settings_file(contents)?;
        let _ = set_dot_notation(&mut settings, key, value);
        let written = encode(&settings, prettify)?;
        self.store(id, settings);
        Ok(written)
    }

    /// Keeps `settings` as the cache of the file with this ID.
    fn store(&mut self, id: usize, settings: TreeValue)
        requires
            old(self).wf(),
            id < old(self).files().len(),
        ensures
            final(self).wf(),
            final(self).files() == old(self).files(),
            final(self).config() == old(self).config(),
            final(self).cache() == old(self).cache().update(id as int, Some(settings@)),
    {
        broadcast use vstd::std_specs::hash::group_hash_axioms;

        let ghost before = self.documents@;
        assert(before.len() == spec_hash_map_len(&self.documents));
        match slot(&mut self.documents, id) {
            Some(document) => {
                document.cache = Some(settings);
            },
            None => {},
        }
        proof {
            lemma_replace(before, id, self.documents@[id]);
            assert(self.files() =~= old(self).files());
        }
    }
}

} // verus!
