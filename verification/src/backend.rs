//! Backend selection: which storage engines and remote-access front ends the
//! native library is built with, and what that choice means for the build
//! definitions and the link set.

use vstd::prelude::*;
use crate::text::texts;

verus! {

/// One selectable part of the native engine.
#[derive(Clone, Copy, Debug, PartialEq, Eq, Structural)]
pub enum Backend {
    /// The in-memory storage engine.
    Umem,
    /// The LevelDB-backed storage engine.
    Leveldb,
    /// The RocksDB-backed storage engine.
    Rocksdb,
    /// The client side of the remote-access front end.
    FlightClient,
    /// The server side of the remote-access front end.
    FlightServer,
}

impl Backend {
    /// Storage engines are compiled into a library of their own; the
    /// remote-access front ends are not.
    pub open spec fn storage(self) -> bool {
        self is Umem || self is Leveldb || self is Rocksdb
    }

    /// The name of the native build definition that switches this backend.
    pub open spec fn key(self) -> Seq<char> {
        match self {
            Backend::Umem => "UKV_BUILD_ENGINE_UMEM"@,
            Backend::Leveldb => "UKV_BUILD_ENGINE_LEVELDB"@,
            Backend::Rocksdb => "UKV_BUILD_ENGINE_ROCKSDB"@,
            Backend::FlightClient => "UKV_BUILD_API_FLIGHT_CLIENT"@,
            Backend::FlightServer => "UKV_BUILD_API_FLIGHT_SERVER"@,
        }
    }

    /// The library a storage engine is compiled into.
    pub open spec fn library(self) -> Seq<char>
        recommends
            self.storage(),
    {
        match self {
            Backend::Umem => "umem_bundle"@,
            Backend::Leveldb => "leveldb_bundle"@,
            Backend::Rocksdb => "rocksdb_bundle"@,
            _ => Seq::empty(),
        }
    }

    /// Whether this backend is a storage engine.
    pub fn is_storage(&self) -> (b: bool)
        ensures
            b == self.storage(),
    {
        match self {
            Backend::Umem => true,
            Backend::Leveldb => true,
            Backend::Rocksdb => true,
            _ => false,
        }
    }

    /// The name of the native build definition that switches this backend.
    pub fn definition_key(&self) -> (key: &'static str)
        ensures
            key@ == self.key(),
    {
        match self {
            Backend::Umem => "UKV_BUILD_ENGINE_UMEM",
            Backend::Leveldb => "UKV_BUILD_ENGINE_LEVELDB",
            Backend::Rocksdb => "UKV_BUILD_ENGINE_ROCKSDB",
            Backend::FlightClient => "UKV_BUILD_API_FLIGHT_CLIENT",
            Backend::FlightServer => "UKV_BUILD_API_FLIGHT_SERVER",
        }
    }

    /// The library this backend is compiled into, if it is a storage engine.
    pub fn library_name(&self) -> (name: Option<&'static str>)
        ensures
            name is Some <==> self.storage(),
            name is Some ==> name->Some_0@ == self.library(),
    {
        match self {
            Backend::Umem => Some("umem_bundle"),
            Backend::Leveldb => Some("leveldb_bundle"),
            Backend::Rocksdb => Some("rocksdb_bundle"),
            _ => None,
        }
    }
}

/// A key/value pair handed to the native configure step.
#[derive(Debug, PartialEq, Eq)]
pub struct BuildDefinition {
    pub key: String,
    pub value: String,
}

/// Mathematical model of a [`BuildDefinition`].
pub struct DefinitionView {
    pub key: Seq<char>,
    pub value: Seq<char>,
}

impl View for BuildDefinition {
    type V = DefinitionView;

    open spec fn view(&self) -> DefinitionView {
        DefinitionView { key: self.key@, value: self.value@ }
    }
}

impl DefinitionView {
    /// How the pair is written on the configure step's command line.
    pub open spec fn argument(self) -> Seq<char> {
        "-D"@ + self.key + "="@ + self.value
    }
}

/// The models of a list of definitions, element by element.
pub open spec fn definitions(items: Seq<BuildDefinition>) -> Seq<DefinitionView> {
    items.map_values(|d: BuildDefinition| d@)
}

/// How a boolean toggle is written as a definition's value.
pub open spec fn switch(on: bool) -> Seq<char> {
    if on {
        "1"@
    } else {
        "0"@
    }
}

/// How a boolean toggle is written as a definition's value.
pub fn switch_text(on: bool) -> (text: &'static str)
    ensures
        text@ == switch(on),
{
    if on {
        "1"
    } else {
        "0"
    }
}

impl BuildDefinition {
    /// A definition with the given key and value.
    pub fn new(key: &str, value: &str) -> (d: BuildDefinition)
        ensures
            d@ == (DefinitionView { key: key@, value: value@ }),
    {
        BuildDefinition { key: String::from_str(key), value: String::from_str(value) }
    }

    /// A definition that switches `key` on or off.
    pub fn toggle(key: &str, on: bool) -> (d: BuildDefinition)
        ensures
            d@ == (DefinitionView { key: key@, value: switch(on) }),
    {
        BuildDefinition::new(key, switch_text(on))
    }

    /// The definition as one command-line argument of the configure step.
    pub fn argument(&self) -> (arg: String)
        ensures
            arg@ == self@.argument(),
    {
        let mut arg = String::from_str("-D");
        arg.append(self.key.as_str());
        arg.append("=");
        arg.append(self.value.as_str());
        arg
    }
}

/// The backends the native library is built with. Every backend is off unless
/// it is switched on; nothing forbids an empty selection or a mix of embedded
/// engines and remote-access front ends.
#[derive(Clone, Copy, Debug, PartialEq, Eq, Structural)]
pub struct BackendFlagSet {
    pub umem: bool,
    pub leveldb: bool,
    pub rocksdb: bool,
    pub flight_client: bool,
    pub flight_server: bool,
}

impl BackendFlagSet {
    /// Whether `backend` is switched on.
    pub open spec fn enabled(self, backend: Backend) -> bool {
        match backend {
            Backend::Umem => self.umem,
            Backend::Leveldb => self.leveldb,
            Backend::Rocksdb => self.rocksdb,
            Backend::FlightClient => self.flight_client,
            Backend::FlightServer => self.flight_server,
        }
    }

    /// Whether at least one storage engine is switched on.
    pub open spec fn any_storage(self) -> bool {
        self.umem || self.leveldb || self.rocksdb
    }

    /// Whether `library` is the library of a storage engine that is switched on.
    pub open spec fn builds(self, library: Seq<char>) -> bool {
        ||| self.umem && library == Backend::Umem.library()
        ||| self.leveldb && library == Backend::Leveldb.library()
        ||| self.rocksdb && library == Backend::Rocksdb.library()
    }

    /// The definition that tells the native build whether `backend` is wanted.
    pub open spec fn definition(self, backend: Backend) -> DefinitionView {
        DefinitionView { key: backend.key(), value: switch(self.enabled(backend)) }
    }

    /// One definition per backend, in a fixed order.
    pub open spec fn definition_list(self) -> Seq<DefinitionView> {
        seq![
            self.definition(Backend::Umem),
            self.definition(Backend::Leveldb),
            self.definition(Backend::Rocksdb),
            self.definition(Backend::FlightClient),
            self.definition(Backend::FlightServer),
        ]
    }

    /// The libraries to link: one per enabled storage engine, in a fixed order.
    pub open spec fn libraries(self) -> Seq<Seq<char>> {
        (if self.umem {
            seq![Backend::Umem.library()]
        } else {
            Seq::empty()
        }) + (if self.rocksdb {
            seq![Backend::Rocksdb.library()]
        } else {
            Seq::empty()
        }) + (if self.leveldb {
            seq![Backend::Leveldb.library()]
        } else {
            Seq::empty()
        })
    }

    /// The selection with every backend off.
    pub fn none() -> (flags: BackendFlagSet)
        ensures
            forall|b: Backend| !flags.enabled(b),
    {
        BackendFlagSet {
            umem: false,
            leveldb: false,
            rocksdb: false,
            flight_client: false,
            flight_server: false,
        }
    }

    /// The selection described by five independent toggles.
    pub fn new(
        umem: bool,
        leveldb: bool,
        rocksdb: bool,
        flight_client: bool,
        flight_server: bool,
    ) -> (flags: BackendFlagSet)
        ensures
            flags == (BackendFlagSet { umem, leveldb, rocksdb, flight_client, flight_server }),
    {
        BackendFlagSet { umem, leveldb, rocksdb, flight_client, flight_server }
    }

    /// This selection with `backend` switched on as well.
    pub fn with(self, backend: Backend) -> (flags: BackendFlagSet)
        ensures
            forall|b: Backend| flags.enabled(b) == (b == backend || self.enabled(b)),
    {
        let mut flags = self;
        match backend {
            Backend::Umem => {
                flags.umem = true;
            },
            Backend::Leveldb => {
                flags.leveldb = true;
            },
            Backend::Rocksdb => {
                flags.rocksdb = true;
            },
            Backend::FlightClient => {
                flags.flight_client = true;
            },
            Backend::FlightServer => {
                flags.flight_server = true;
            },
        }
        flags
    }

    /// Whether `backend` is switched on.
    pub fn is_enabled(&self, backend: Backend) -> (on: bool)
        ensures
            on == self.enabled(backend),
    {
        match backend {
            Backend::Umem => self.umem,
            Backend::Leveldb => self.leveldb,
            Backend::Rocksdb => self.rocksdb,
            Backend::FlightClient => self.flight_client,
            Backend::FlightServer => self.flight_server,
        }
    }

    /// Whether at least one storage engine is switched on. A selection without
    /// one can be built, but the resulting library stores nothing.
    pub fn has_storage_backend(&self) -> (b: bool)
        ensures
            b == self.any_storage(),
    {
        self.umem || self.leveldb || self.rocksdb
    }

    /// The native build definitions for this selection: one per backend, each
    /// `1` when the backend is on and `0` when it is off.
    pub fn build_definitions(&self) -> (defs: Vec<BuildDefinition>)
        ensures
            definitions(defs@) == self.definition_list(),
    {
        let mut defs: Vec<BuildDefinition> = Vec::new();
        defs.push(BuildDefinition::toggle(Backend::Umem.definition_key(), self.umem));
        defs.push(BuildDefinition::toggle(Backend::Leveldb.definition_key(), self.leveldb));
        defs.push(BuildDefinition::toggle(Backend::Rocksdb.definition_key(), self.rocksdb));
        defs.push(
            BuildDefinition::toggle(Backend::FlightClient.definition_key(), self.flight_client),
        );
        defs.push(
            BuildDefinition::toggle(Backend::FlightServer.definition_key(), self.flight_server),
        );
        assert(definitions(defs@) =~= self.definition_list());
        defs
    }

    /// The names of the libraries to link against: exactly those of the enabled
    /// storage engines.
    pub fn link_libraries(&self) -> (libs: Vec<String>)
        ensures
            texts(libs@) == self.libraries(),
    {
        let mut libs: Vec<String> = Vec::new();
        if self.umem {
            libs.push(String::from_str("umem_bundle"));
        }
        if self.rocksdb {
            libs.push(String::from_str("rocksdb_bundle"));
        }
        if self.leveldb {
            libs.push(String::from_str("leveldb_bundle"));
        }
        assert(texts(libs@) =~= self.libraries());
        libs
    }
}

impl Default for BackendFlagSet {
    /// Nothing is enabled by default.
    fn default() -> (flags: BackendFlagSet)
        ensures
            forall|b: Backend| !flags.enabled(b),
    {
        BackendFlagSet::none()
    }
}

/// The three library names are pairwise different.
pub proof fn library_names_differ(a: Backend, b: Backend)
    requires
        a.storage(),
        b.storage(),
    ensures
        a.library() == b.library() <==> a == b,
{
    reveal_strlit("umem_bundle");
    reveal_strlit("leveldb_bundle");
    reveal_strlit("rocksdb_bundle");
    if a != b {
        assert(a.library().len() != b.library().len() || a.library()[0] != b.library()[0]);
    }
}

/// The link set names exactly the libraries of the enabled storage engines:
/// every enabled engine's library is in it, no disabled engine's library is,
/// every entry belongs to some enabled engine, and no entry is repeated.
pub proof fn link_set_is_exact(flags: BackendFlagSet)
    ensures
        forall|b: Backend|
            b.storage() ==> (#[trigger] flags.libraries().contains(b.library())
                <==> flags.enabled(b)),
        forall|i: int|
            0 <= i < flags.libraries().len() ==> flags.builds(#[trigger] flags.libraries()[i]),
        flags.libraries().no_duplicates(),
        flags.any_storage() <==> flags.libraries().len() > 0,
{
    let libs = flags.libraries();
    library_names_differ(Backend::Umem, Backend::Leveldb);
    library_names_differ(Backend::Umem, Backend::Rocksdb);
    library_names_differ(Backend::Leveldb, Backend::Rocksdb);
    let u: Seq<Seq<char>> = if flags.umem {
        seq![Backend::Umem.library()]
    } else {
        Seq::empty()
    };
    let r: Seq<Seq<char>> = if flags.rocksdb {
        seq![Backend::Rocksdb.library()]
    } else {
        Seq::empty()
    };
    let l: Seq<Seq<char>> = if flags.leveldb {
        seq![Backend::Leveldb.library()]
    } else {
        Seq::empty()
    };
    assert(libs == u + r + l);
    assert forall|b: Backend| b.storage() implies (#[trigger] libs.contains(b.library())
        <==> flags.enabled(b)) by {
        if flags.enabled(b) {
            let i: int = match b {
                Backend::Umem => 0,
                Backend::Rocksdb => u.len() as int,
                _ => (u.len() + r.len()) as int,
            };
            assert(libs[i] == b.library());
        }
    }
    assert forall|i: int| 0 <= i < libs.len() implies flags.builds(#[trigger] libs[i]) by {
        if i < u.len() {
            assert(libs[i] == Backend::Umem.library());
        } else if i < u.len() + r.len() {
            assert(libs[i] == Backend::Rocksdb.library());
        } else {
            assert(libs[i] == Backend::Leveldb.library());
        }
    }
}

} // verus!
