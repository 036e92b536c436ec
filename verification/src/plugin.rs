//! The plugin itself: its manifest, and the profiles of the bindings
//! registered with it, kept by binding name.

use vstd::prelude::*;
use vstd::string::*;

use crate::json::{entries_view, lemma_entries_view, Json, JsonView};
use crate::profile::{
    check_spec, parsed_view, registration, BackendError, BackendErrorView, MockBackendSpec,
    MockProfile, MockProfileView,
};
use crate::result::MOCK_KIND;
use crate::{PLUGIN_ID, PLUGIN_NAME};

verus! {

/// The class of a plugin.
#[derive(Debug, Clone, Copy, PartialEq, Eq)]
pub enum PluginClass {
    Backend,
}

/// The manifest a plugin registers under.
#[derive(Debug, Clone)]
pub struct PluginManifest {
    pub id: String,
    pub name: String,
    pub class: PluginClass,
}

/// The model of a [`PluginManifest`].
pub struct PluginManifestView {
    pub id: Seq<char>,
    pub name: Seq<char>,
    pub class: PluginClass,
}

impl View for PluginManifest {
    type V = PluginManifestView;

    open spec fn view(&self) -> PluginManifestView {
        PluginManifestView { id: self.id@, name: self.name@, class: self.class }
    }
}

/// The manifest of this plugin: a first-party backend.
pub open spec fn mock_manifest() -> PluginManifestView {
    PluginManifestView { id: PLUGIN_ID@, name: PLUGIN_NAME@, class: PluginClass::Backend }
}

/// The audit entry every call of this plugin carries.
pub open spec fn audit_metadata_of() -> JsonView {
    JsonView::Object(seq![("mock.transport"@, JsonView::Str("plugin"@))])
}

/// The profile registered under `name` in `store`, or the error for a name
/// that no binding was registered under.
pub open spec fn lookup(store: Map<Seq<char>, MockProfileView>, name: Seq<char>) -> Result<
    MockProfileView,
    BackendErrorView,
> {
    if store.contains_key(name) {
        Ok(store[name])
    } else {
        Err(BackendErrorView::ProfileNotFound(name))
    }
}

/// The profiles kept after registering `parsed` under `name` in `store`: an
/// accepted spec takes the name, replacing what was there; a refused one
/// changes nothing.
pub open spec fn after_register(
    store: Map<Seq<char>, MockProfileView>,
    name: Seq<char>,
    parsed: Result<MockProfileView, Seq<char>>,
) -> Map<Seq<char>, MockProfileView> {
    match registration(parsed) {
        Ok(p) => store.insert(name, p),
        Err(_) => store,
    }
}

/// No name occurs twice among `entries`.
pub open spec fn names_distinct(entries: Seq<(String, MockProfile)>) -> bool {
    forall|i: int, j: int|
        0 <= i < entries.len() && 0 <= j < entries.len() && i != j ==> entries[i].0@
            != entries[j].0@
}

/// The profiles that `entries` keep, by name.
pub open spec fn store_view(entries: Seq<(String, MockProfile)>) -> Map<
    Seq<char>,
    MockProfileView,
> {
    Map::new(
        |k: Seq<char>| exists|i: int| 0 <= i < entries.len() && entries[i].0@ == k,
        |k: Seq<char>|
            entries[choose|i: int| 0 <= i < entries.len() && entries[i].0@ == k].1@,
    )
}

/// An entry's profile is the one its name maps to.
pub proof fn lemma_store_index(entries: Seq<(String, MockProfile)>, i: int)
    requires
        names_distinct(entries),
        0 <= i < entries.len(),
    ensures
        store_view(entries).contains_key(entries[i].0@),
        store_view(entries)[entries[i].0@] == entries[i].1@,
{
    let k = entries[i].0@;
    assert(store_view(entries).dom().contains(k));
    let j = choose|j: int| 0 <= j < entries.len() && entries[j].0@ == k;
    assert(j == i);
}

/// Replacing the entry of a name updates that name alone.
pub proof fn lemma_store_update(
    entries: Seq<(String, MockProfile)>,
    i: int,
    e: (String, MockProfile),
)
    requires
        names_distinct(entries),
        0 <= i < entries.len(),
        entries[i].0@ == e.0@,
    ensures
        names_distinct(entries.update(i, e)),
        store_view(entries.update(i, e)) == store_view(entries).insert(e.0@, e.1@),
{
    let s2 = entries.update(i, e);
    assert(names_distinct(s2));
    let m1 = store_view(entries).insert(e.0@, e.1@);
    let m2 = store_view(s2);
    assert forall|k: Seq<char>| m2.contains_key(k) <==> m1.contains_key(k) by {
        if m2.contains_key(k) {
            let j = choose|j: int| 0 <= j < s2.len() && s2[j].0@ == k;
            if j != i {
                lemma_store_index(entries, j);
            }
        }
        if m1.contains_key(k) && k != e.0@ {
            let j = choose|j: int| 0 <= j < entries.len() && entries[j].0@ == k;
            lemma_store_index(s2, j);
        }
        if k == e.0@ {
            lemma_store_index(s2, i);
        }
    }
    assert forall|k: Seq<char>| m2.contains_key(k) implies m2[k] == m1[k] by {
        let j = choose|j: int| 0 <= j < s2.len() && s2[j].0@ == k;
        lemma_store_index(s2, j);
        if j != i {
            lemma_store_index(entries, j);
        }
    }
    assert(m2 =~= m1);
}

/// Adding an entry under a new name adds that name alone.
pub proof fn lemma_store_push(entries: Seq<(String, MockProfile)>, e: (String, MockProfile))
    requires
        names_distinct(entries),
        !store_view(entries).contains_key(e.0@),
    ensures
        names_distinct(entries.push(e)),
        store_view(entries.push(e)) == store_view(entries).insert(e.0@, e.1@),
{
    let s2 = entries.push(e);
    assert forall|i: int, j: int|
        0 <= i < s2.len() && 0 <= j < s2.len() && i != j implies s2[i].0@ != s2[j].0@ by {
        if i == entries.len() as int {
            if s2[j].0@ == e.0@ {
                assert(store_view(entries).dom().contains(e.0@));
            }
        }
        if j == entries.len() as int {
            if s2[i].0@ == e.0@ {
                assert(store_view(entries).dom().contains(e.0@));
            }
        }
    }
    let m1 = store_view(entries).insert(e.0@, e.1@);
    let m2 = store_view(s2);
    assert forall|k: Seq<char>| m2.contains_key(k) <==> m1.contains_key(k) by {
        if m2.contains_key(k) {
            let j = choose|j: int| 0 <= j < s2.len() && s2[j].0@ == k;
            if j < entries.len() {
                lemma_store_index(entries, j);
            }
        }
        if m1.contains_key(k) && k != e.0@ {
            let j = choose|j: int| 0 <= j < entries.len() && entries[j].0@ == k;
            lemma_store_index(s2, j);
        }
        if k == e.0@ {
            lemma_store_index(s2, entries.len() as int);
        }
    }
    assert forall|k: Seq<char>| m2.contains_key(k) implies m2[k] == m1[k] by {
        let j = choose|j: int| 0 <= j < s2.len() && s2[j].0@ == k;
        lemma_store_index(s2, j);
        if j < entries.len() {
            lemma_store_index(entries, j);
        }
    }
    assert(m2 =~= m1);
}

/// The `BackendPlugin` for `kind: "mock"`: registration keeps each binding's
/// profile under its name, and a call answers from the profile of its binding.
pub struct MockBackendPlugin {
    manifest: PluginManifest,
    profiles: Vec<(String, MockProfile)>,
}

impl MockBackendPlugin {
    /// The plugin's manifest is its own, and no binding name is kept twice.
    #[verifier::type_invariant]
    spec fn well_formed(self) -> bool {
        &&& self.manifest@ == mock_manifest()
        &&& names_distinct(self.profiles@)
    }
}

impl View for MockBackendPlugin {
    type V = Map<Seq<char>, MockProfileView>;

    closed spec fn view(&self) -> Map<Seq<char>, MockProfileView> {
        store_view(self.profiles@)
    }
}

impl MockBackendPlugin {
    /// A plugin with no binding registered.
    pub fn new() -> (r: Self)
        ensures
            r@ == Map::<Seq<char>, MockProfileView>::empty(),
    {
        let manifest = PluginManifest {
            id: String::from_str(PLUGIN_ID),
            name: String::from_str(PLUGIN_NAME),
            class: PluginClass::Backend,
        };
        let r = MockBackendPlugin { manifest, profiles: Vec::new() };
        assert(r@ =~= Map::<Seq<char>, MockProfileView>::empty());
        r
    }

    /// The plugin's manifest.
    pub fn manifest(&self) -> (r: &PluginManifest)
        ensures
            r@ == mock_manifest(),
    {
        proof {
            use_type_invariant(self);
        }
        &self.manifest
    }

    /// The binding kind this plugin serves: `mock`.
    pub fn kind(&self) -> (r: &'static str)
        ensures
            r@ == MOCK_KIND@,
    {
        MOCK_KIND
    }

    /// The position of the binding `name`, if one was registered under it.
    fn find(&self, name: &String) -> (r: Option<usize>)
        ensures
            match r {
                Some(i) => i < self.profiles@.len() && self.profiles@[i as int].0@ == name@,
                None => !self@.contains_key(name@),
            },
    {
        let mut i: usize = 0;
        while i < self.profiles.len()
            invariant
                i <= self.profiles@.len(),
                forall|k: int| 0 <= k < i ==> self.profiles@[k].0@ != name@,
            decreases self.profiles@.len() - i,
        {
            if self.profiles[i].0 == *name {
                return Some(i);
            }
            i = i + 1;
        }
        None
    }

    /// Registers the binding `backend_name` with the spec `parsed` (the spec
    /// as read from the operator's JSON, or the reader's message where it
    /// could not be read). An accepted spec replaces what was registered
    /// under the name; a refused one is answered with `InvalidSpec` and
    /// changes nothing.
    pub fn register_profile(
        &mut self,
        backend_name: &str,
        parsed: Result<MockBackendSpec, String>,
    ) -> (r: Result<(), BackendError>)
        ensures
            final(self)@ == after_register(old(self)@, backend_name@, parsed_view(parsed)),
            match registration(parsed_view(parsed)) {
                Ok(_) => r is Ok,
                Err(e) => r matches Err(x) && x@ == e,
            },
    {
        proof {
            use_type_invariant(&*self);
        }
        let profile = match check_spec(parsed) {
            Ok(p) => p,
            Err(e) => {
                return Err(e);
            },
        };
        let name = String::from_str(backend_name);
        let found = self.find(&name);
        let ghost old_entries = self.profiles@;
        let mut profiles: Vec<(String, MockProfile)> = Vec::new();
        std::mem::swap(&mut profiles, &mut self.profiles);
        assert(profiles@ == old_entries);
        match found {
            Some(i) => {
                proof {
                    lemma_store_update(old_entries, i as int, (name, profile));
                }
                profiles.set(i, (name, profile));
            },
            None => {
                proof {
                    lemma_store_push(old_entries, (name, profile));
                }
                profiles.push((name, profile));
            },
        }
        self.profiles = profiles;
        Ok(())
    }

    /// The profile registered under `backend_name`; `ProfileNotFound` where
    /// no binding was registered under it.
    pub fn profile(&self, backend_name: &str) -> (r: Result<MockProfile, BackendError>)
        ensures
            crate::profile::profile_result_view(r) == lookup(self@, backend_name@),
    {
        proof {
            use_type_invariant(self);
        }
        let name = String::from_str(backend_name);
        match self.find(&name) {
            Some(i) => {
                proof {
                    lemma_store_index(self.profiles@, i as int);
                }
                Ok(self.profiles[i].1.clone())
            },
            None => Err(BackendError::ProfileNotFound { backend_name: name }),
        }
    }

    /// The audit entries this plugin adds to every call: `mock.transport` is `plugin`.
    pub fn audit_metadata(&self, backend_name: &str) -> (r: Json)
        ensures
            r@ == audit_metadata_of(),
    {
        let mut entries: Vec<(String, Json)> = Vec::new();
        entries.push((String::from_str("mock.transport"), Json::string("plugin")));
        let r = Json::Object(entries);
        proof {
            lemma_entries_view(entries@);
            assert(entries_view(entries@) =~= audit_metadata_of()->Object_0);
        }
        r
    }
}

impl Default for MockBackendPlugin {
    fn default() -> (r: Self)
        ensures
            r@ == Map::<Seq<char>, MockProfileView>::empty(),
    {
        Self::new()
    }
}

} // verus!
