use ebpf_kit::data::{
    payload_kind_of, Action, EbpfProgLoadLogLevel, MapFd, MapType, PayloadKind, ProgramFd,
    ProgramType, WriteOption,
};

#[test]
fn it_works() {
}

#[test]
fn action_codes_follow_kernel_order() {
    assert_eq!(Action::MapCreate.code(), 0);
    assert_eq!(Action::MapLookupElem.code(), 1);
    assert_eq!(Action::MapUpdateElem.code(), 2);
    assert_eq!(Action::MapDeleteElem.code(), 3);
    assert_eq!(Action::MapGetNextKey.code(), 4);
    assert_eq!(Action::ProgLoad.code(), 5);
    assert_eq!(Action::ObjPin.code(), 6);
    assert_eq!(Action::ObjGet.code(), 7);
    assert_eq!(Action::ProgAttach.code(), 8);
    assert_eq!(Action::ProgDetach.code(), 9);
}

#[test]
fn map_type_codes() {
    assert_eq!(MapType::Unspec.code(), 0);
    assert_eq!(MapType::Hash.code(), 1);
    assert_eq!(MapType::Array.code(), 2);
    assert_eq!(MapType::LpmTrie.code(), 11);
    assert_eq!(MapType::HashOfMaps.code(), 13);
}

#[test]
fn program_type_codes() {
    assert_eq!(ProgramType::Unspec.code(), 0);
    assert_eq!(ProgramType::SocketFilter.code(), 1);
    assert_eq!(ProgramType::LwtXmit.code(), 12);
}

#[test]
fn write_option_flags() {
    assert_eq!(WriteOption::CreateOrUpdate.flag(), 0);
    assert_eq!(WriteOption::CreateEntry.flag(), 1);
    assert_eq!(WriteOption::UpdateEntry.flag(), 2);
}

#[test]
fn log_level_codes() {
    assert_eq!(EbpfProgLoadLogLevel::Off.code(), 0);
    assert_eq!(EbpfProgLoadLogLevel::Normal.code(), 1);
    assert_eq!(EbpfProgLoadLogLevel::Verbose.code(), 2);
    assert_eq!(EbpfProgLoadLogLevel::VeryVerbose.code(), 3);
}

#[test]
fn each_action_takes_one_payload_shape() {
    assert_eq!(payload_kind_of(Action::MapCreate), PayloadKind::MapCreate);
    assert_eq!(payload_kind_of(Action::MapLookupElem), PayloadKind::MapElem);
    assert_eq!(payload_kind_of(Action::MapUpdateElem), PayloadKind::MapElem);
    assert_eq!(payload_kind_of(Action::MapDeleteElem), PayloadKind::MapElem);
    assert_eq!(payload_kind_of(Action::MapGetNextKey), PayloadKind::MapElem);
    assert_eq!(payload_kind_of(Action::ProgLoad), PayloadKind::ProgLoad);
    assert_eq!(payload_kind_of(Action::ObjPin), PayloadKind::Obj);
    assert_eq!(payload_kind_of(Action::ObjGet), PayloadKind::Obj);
    assert_eq!(payload_kind_of(Action::ProgAttach), PayloadKind::ProgDeAttach);
    assert_eq!(payload_kind_of(Action::ProgDetach), PayloadKind::ProgDeAttach);
}

#[test]
fn descriptor_wrappers_round_trip() {
    let m = MapFd::new(7);
    assert_eq!(m.get_fd(), 7);
    let p = ProgramFd::new(9);
    assert_eq!(p.get_fd(), 9);
}
