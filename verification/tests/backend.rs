use ukv::backend::{Backend, BackendFlagSet, BuildDefinition};

const ALL: [Backend; 5] = [
    Backend::Umem,
    Backend::Leveldb,
    Backend::Rocksdb,
    Backend::FlightClient,
    Backend::FlightServer,
];

fn bit(mask: u32, n: u32) -> bool {
    mask & (1 << n) != 0
}

fn selection(mask: u32) -> BackendFlagSet {
    BackendFlagSet::new(bit(mask, 0), bit(mask, 1), bit(mask, 2), bit(mask, 3), bit(mask, 4))
}

#[test]
fn nothing_is_enabled_by_default() {
    let flags = BackendFlagSet::default();
    assert_eq!(flags, BackendFlagSet::none());
    for backend in ALL {
        assert!(!flags.is_enabled(backend));
    }
    assert!(!flags.has_storage_backend());
    assert!(flags.link_libraries().is_empty());
}

#[test]
fn toggles_are_independent() {
    let flags = BackendFlagSet::new(true, false, true, false, true);
    assert!(flags.is_enabled(Backend::Umem));
    assert!(!flags.is_enabled(Backend::Leveldb));
    assert!(flags.is_enabled(Backend::Rocksdb));
    assert!(!flags.is_enabled(Backend::FlightClient));
    assert!(flags.is_enabled(Backend::FlightServer));
}

#[test]
fn with_switches_one_backend_on_and_keeps_the_rest() {
    let flags = BackendFlagSet::none().with(Backend::Leveldb);
    assert_eq!(flags, BackendFlagSet::new(false, true, false, false, false));
    let both = flags.with(Backend::FlightClient);
    assert_eq!(both, BackendFlagSet::new(false, true, false, true, false));
    assert_eq!(both.with(Backend::Leveldb), both);
}

#[test]
fn embedded_engines_and_front_ends_can_be_combined() {
    let flags = BackendFlagSet::new(true, true, true, true, true);
    for backend in ALL {
        assert!(flags.is_enabled(backend));
    }
    assert_eq!(flags.link_libraries(), vec!["umem_bundle", "rocksdb_bundle", "leveldb_bundle"]);
}

#[test]
fn only_the_three_engines_are_storage_backends() {
    assert!(Backend::Umem.is_storage());
    assert!(Backend::Leveldb.is_storage());
    assert!(Backend::Rocksdb.is_storage());
    assert!(!Backend::FlightClient.is_storage());
    assert!(!Backend::FlightServer.is_storage());
}

#[test]
fn definition_keys_and_library_names() {
    assert_eq!(Backend::Umem.definition_key(), "UKV_BUILD_ENGINE_UMEM");
    assert_eq!(Backend::Leveldb.definition_key(), "UKV_BUILD_ENGINE_LEVELDB");
    assert_eq!(Backend::Rocksdb.definition_key(), "UKV_BUILD_ENGINE_ROCKSDB");
    assert_eq!(Backend::FlightClient.definition_key(), "UKV_BUILD_API_FLIGHT_CLIENT");
    assert_eq!(Backend::FlightServer.definition_key(), "UKV_BUILD_API_FLIGHT_SERVER");
    assert_eq!(Backend::Umem.library_name(), Some("umem_bundle"));
    assert_eq!(Backend::Leveldb.library_name(), Some("leveldb_bundle"));
    assert_eq!(Backend::Rocksdb.library_name(), Some("rocksdb_bundle"));
    assert_eq!(Backend::FlightClient.library_name(), None);
    assert_eq!(Backend::FlightServer.library_name(), None);
}

#[test]
fn rocksdb_alone_defines_rocksdb_and_links_only_rocksdb() {
    let flags = BackendFlagSet::new(false, false, true, false, false);
    let defs = flags.build_definitions();
    let expected = vec![
        BuildDefinition::new("UKV_BUILD_ENGINE_UMEM", "0"),
        BuildDefinition::new("UKV_BUILD_ENGINE_LEVELDB", "0"),
        BuildDefinition::new("UKV_BUILD_ENGINE_ROCKSDB", "1"),
        BuildDefinition::new("UKV_BUILD_API_FLIGHT_CLIENT", "0"),
        BuildDefinition::new("UKV_BUILD_API_FLIGHT_SERVER", "0"),
    ];
    assert_eq!(defs, expected);
    assert_eq!(flags.link_libraries(), vec!["rocksdb_bundle"]);
    assert!(flags.has_storage_backend());
}

#[test]
fn every_selection_defines_each_backend_as_it_is_set() {
    for mask in 0..32u32 {
        let flags = selection(mask);
        let defs = flags.build_definitions();
        assert_eq!(defs.len(), 5);
        for (def, backend) in defs.iter().zip(ALL) {
            assert_eq!(def.key, backend.definition_key());
            assert_eq!(def.value, if flags.is_enabled(backend) { "1" } else { "0" });
        }
    }
}

#[test]
fn every_selection_links_exactly_its_enabled_engines() {
    for mask in 0..32u32 {
        let flags = selection(mask);
        let libs = flags.link_libraries();
        let mut wanted: usize = 0;
        for backend in ALL {
            if let Some(name) = backend.library_name() {
                let listed = libs.iter().filter(|l| l.as_str() == name).count();
                if flags.is_enabled(backend) {
                    assert_eq!(listed, 1, "{name} must be linked once");
                    wanted += 1;
                } else {
                    assert_eq!(listed, 0, "{name} must not be linked");
                }
            }
        }
        assert_eq!(libs.len(), wanted);
        assert_eq!(flags.has_storage_backend(), wanted > 0);
    }
}

#[test]
fn a_front_end_alone_links_nothing() {
    let flags = BackendFlagSet::none().with(Backend::FlightServer);
    assert!(!flags.has_storage_backend());
    assert!(flags.link_libraries().is_empty());
    assert_eq!(flags.build_definitions()[4], BuildDefinition::toggle("UKV_BUILD_API_FLIGHT_SERVER", true));
}

#[test]
fn a_definition_is_written_as_one_argument() {
    assert_eq!(BuildDefinition::new("CMAKE_C_COMPILER", "gcc").argument(), "-DCMAKE_C_COMPILER=gcc");
    assert_eq!(BuildDefinition::toggle("UKV_BUILD_TESTS", false).argument(), "-DUKV_BUILD_TESTS=0");
    assert_eq!(BuildDefinition::toggle("UKV_BUILD_BUNDLES", true).argument(), "-DUKV_BUILD_BUNDLES=1");
    assert_eq!(BuildDefinition::new("", "").argument(), "-D=");
}
