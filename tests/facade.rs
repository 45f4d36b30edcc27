use vm_facade::assets::{asset_key, choose_target, has_dot, index_html, not_found, static_handler, FallbackTarget};
use vm_facade::connection::{split_version, VirtConnection};
use vm_facade::errors::{status_of, FacadeError};
use vm_facade::json::{bool_json, frame_array};
use vm_facade::network::{assemble_interfaces, get_interfaces, get_networks};
use vm_facade::vm::{BackendCall, DomainReport, TransitionOutcome, VirtualMachine, VmAction, VmItem};
use vm_facade::volumes::{collect_volumes, get_storage, VolumeDetail, VolumeInfo};

fn report(id: Option<u32>, name: Option<&str>, active: Option<bool>) -> DomainReport {
    DomainReport { id, name: name.map(|n| n.to_string()), active }
}

fn volume(name: &str, path: &str, kind: u32, capacity: u64, allocation: u64) -> VolumeDetail {
    VolumeDetail {
        name: Some(name.to_string()),
        path: Some(path.to_string()),
        kind,
        capacity,
        allocation,
    }
}

#[test]
fn vm_listing_end_to_end() {
    let listing = Some(vec![
        report(Some(1), Some("web"), Some(true)),
        report(Some(2), Some("db"), Some(true)),
        report(Some(0), Some("backup"), Some(false)),
    ]);
    assert_eq!(
        VirtualMachine::all(&listing),
        "[{\"id\":1,\"name\":\"web\",\"active\":true},{\"id\":2,\"name\":\"db\",\"active\":true},{\"id\":0,\"name\":\"backup\",\"active\":false}]"
    );
}

#[test]
fn vm_listing_count_matches_enumeration() {
    let listing = Some(vec![
        report(None, Some("a"), Some(false)),
        report(None, Some("b"), Some(false)),
        report(Some(7), Some("c"), Some(true)),
    ]);
    let items = VmItem::get_all(&listing).unwrap();
    assert_eq!(items.len(), 3);
    assert_eq!(items[0].id, 0);
    assert_eq!(items[1].id, 0);
    assert_eq!(items[0].name, "a");
    assert_eq!(items[1].name, "b");
    assert_eq!(items[2].id, 7);
}

#[test]
fn vm_with_failed_queries_degrades() {
    let listing = Some(vec![report(None, None, None)]);
    let items = VmItem::get_all(&listing).unwrap();
    assert_eq!(items.len(), 1);
    assert_eq!(items[0].id, 0);
    assert_eq!(items[0].name, "no-name");
    assert!(!items[0].active);
    assert_eq!(VirtualMachine::all(&listing), "[{\"id\":0,\"name\":\"no-name\",\"active\":false}]");
}

#[test]
fn vm_listing_failure_is_empty_text() {
    assert_eq!(VmItem::get_all(&None).is_none(), true);
    assert_eq!(VirtualMachine::all(&None), "");
}

#[test]
fn vm_listing_empty() {
    assert_eq!(VirtualMachine::all(&Some(vec![])), "[]");
}

#[test]
fn vm_name_is_escaped() {
    let listing = Some(vec![report(Some(4294967295), Some("a\"b"), Some(true))]);
    assert_eq!(
        VirtualMachine::all(&listing),
        "[{\"id\":4294967295,\"name\":\"a\\\"b\",\"active\":true}]"
    );
}

#[test]
fn vm_item_new_keeps_fields() {
    let item = VmItem::new(3, "x".to_string(), true);
    assert_eq!(item.id, 3);
    assert_eq!(item.name, "x");
    assert!(item.active);
    assert_eq!(item.to_json(), "{\"id\":3,\"name\":\"x\",\"active\":true}");
}

#[test]
fn suspend_twice_succeeds() {
    let first = VirtualMachine::suspend(Some(TransitionOutcome::Done));
    let second = VirtualMachine::suspend(Some(TransitionOutcome::of_call(false, true)));
    assert_eq!(TransitionOutcome::of_call(true, false), TransitionOutcome::Done);
    assert_eq!(first, Ok(()));
    assert_eq!(second, Ok(()));
    assert_eq!(status_of(&first), 200);
    assert_eq!(status_of(&second), 200);
}

#[test]
fn delete_unknown_vm_is_not_found() {
    let r = VirtualMachine::delete(None);
    assert_eq!(r, Err(FacadeError::LookupFailure));
    assert_eq!(status_of(&r), 404);
}

#[test]
fn failed_transition_is_reported() {
    let r = VirtualMachine::start(Some(TransitionOutcome::of_call(false, false)));
    assert_eq!(r, Err(FacadeError::TransitionFailure));
    assert_eq!(status_of(&r), 500);
    assert_eq!(VirtualMachine::resume(Some(TransitionOutcome::Done)), Ok(()));
    assert_eq!(VirtualMachine::resume(None), Err(FacadeError::LookupFailure));
}

#[test]
fn actions_call_their_own_transition() {
    assert_eq!(VmAction::Start.backend_call(), BackendCall::Create);
    assert_eq!(VmAction::Suspend.backend_call(), BackendCall::Suspend);
    assert_eq!(VmAction::Resume.backend_call(), BackendCall::Resume);
    assert_eq!(VmAction::Delete.backend_call(), BackendCall::Destroy);
}

#[test]
fn error_statuses() {
    assert_eq!(FacadeError::ConnectFailure.status_code(), 502);
    assert_eq!(FacadeError::LookupFailure.status_code(), 404);
    assert_eq!(FacadeError::TransitionFailure.status_code(), 500);
    assert_eq!(FacadeError::SerializationFailure.status_code(), 500);
    assert_eq!(FacadeError::DisconnectFailure.status_code(), 500);
}

#[test]
fn empty_pool_is_empty_list() {
    let listing: Result<Vec<Option<VolumeDetail>>, FacadeError> = Ok(vec![]);
    assert_eq!(get_storage(&listing), Ok("[]".to_string()));
}

#[test]
fn failed_volume_fails_listing() {
    let details = vec![Some(volume("a.img", "/p/a.img", 0, 10, 5)), None];
    assert!(matches!(collect_volumes(&details), Err(FacadeError::LookupFailure)));
    assert_eq!(get_storage(&Ok(details)), Err(FacadeError::LookupFailure));
}

#[test]
fn storage_listing_json() {
    let mut unnamed = volume("", "", 1, 2, 3);
    unnamed.name = None;
    unnamed.path = None;
    let details = vec![Some(volume("a.img", "/var/a.img", 0, 1073741824, 196608)), Some(unnamed)];
    assert_eq!(
        get_storage(&Ok(details)),
        Ok("[{\"name\":\"a.img\",\"path\":\"/var/a.img\",\"kind\":0,\"capacity\":1073741824,\"allocation\":196608},{\"name\":\"\",\"path\":\"\",\"kind\":1,\"capacity\":2,\"allocation\":3}]".to_string())
    );
}

#[test]
fn storage_error_passes_through() {
    assert_eq!(get_storage(&Err(FacadeError::ConnectFailure)), Err(FacadeError::ConnectFailure));
}

#[test]
fn volume_info_new_keeps_fields() {
    let v = VolumeInfo::new("n".to_string(), "/p".to_string(), 2, 18446744073709551615, 0);
    assert_eq!(v.name, "n");
    assert_eq!(v.path, "/p");
    assert_eq!(v.kind, 2);
    assert_eq!(v.capacity, 18446744073709551615);
    assert_eq!(v.allocation, 0);
    assert_eq!(
        v.to_json(),
        "{\"name\":\"n\",\"path\":\"/p\",\"kind\":2,\"capacity\":18446744073709551615,\"allocation\":0}"
    );
}

#[test]
fn network_listing_json() {
    let names = vec!["default".to_string(), "isolated".to_string()];
    assert_eq!(get_networks(&Ok(names)), Ok("[\"default\",\"isolated\"]".to_string()));
    assert_eq!(get_networks(&Ok(vec![])), Ok("[]".to_string()));
    assert_eq!(get_networks(&Err(FacadeError::ConnectFailure)), Err(FacadeError::ConnectFailure));
}

#[test]
fn interface_listing_one_element_per_interface() {
    let descs = vec![
        "<interface type='ethernet' name='lo'><start mode='onboot'/></interface>".to_string(),
        "<interface type='bridge' name='br0'/>".to_string(),
    ];
    let text = get_interfaces(&Ok(descs)).unwrap();
    let value: serde_json::Value = serde_json::from_str(&text).unwrap();
    let items = value.as_array().unwrap();
    assert_eq!(items.len(), 2);
    let first = items[0].as_object().unwrap();
    assert!(first.contains_key("interface"));
    let inner = first["interface"].as_object().unwrap();
    assert_eq!(inner["@name"], "lo");
    assert_eq!(inner["@type"], "ethernet");
    assert!(inner.contains_key("start"));
    assert_eq!(items[1]["interface"]["@name"], "br0");
}

#[test]
fn malformed_interface_description_fails() {
    let descs = vec!["<a></b>".to_string()];
    assert_eq!(get_interfaces(&Ok(descs)), Err(FacadeError::SerializationFailure));
    assert_eq!(get_interfaces(&Ok(vec![])), Ok("[]".to_string()));
}

#[test]
fn assemble_keeps_order() {
    let parts = vec![Some("{\"a\":1}".to_string()), Some("2".to_string())];
    assert_eq!(assemble_interfaces(&parts), Ok("[{\"a\":1},2]".to_string()));
    assert_eq!(
        assemble_interfaces(&vec![Some("1".to_string()), None]),
        Err(FacadeError::SerializationFailure)
    );
}

#[test]
fn frame_array_joins_with_commas() {
    assert_eq!(frame_array(&vec![]), "[]");
    assert_eq!(frame_array(&vec!["1".to_string()]), "[1]");
    assert_eq!(frame_array(&vec!["1".to_string(), "\"x\"".to_string(), "3".to_string()]), "[1,\"x\",3]");
    assert_eq!(bool_json(true), "true");
    assert_eq!(bool_json(false), "false");
}

#[test]
fn asset_key_trims_leading_slashes() {
    assert_eq!(asset_key("/assets/app.js"), "assets/app.js");
    assert_eq!(asset_key("//x"), "x");
    assert_eq!(asset_key("/"), "");
    assert_eq!(asset_key("a/b"), "a/b");
    assert!(has_dot("a.b"));
    assert!(!has_dot("ab"));
}

#[test]
fn fallback_without_extension_serves_index() {
    let index = Some(b"<html></html>".to_vec());
    let r = static_handler("/vms/list", None, index.clone());
    assert_eq!(r.status, 200);
    assert_eq!(r.content_type, "text/html");
    assert_eq!(r.body, b"<html></html>".to_vec());
    assert_eq!(choose_target("vms/list", false), FallbackTarget::Index);
}

#[test]
fn fallback_with_extension_is_not_found() {
    let r = static_handler("/missing.js", None, Some(b"<html></html>".to_vec()));
    assert_eq!(r.status, 404);
    assert_eq!(r.body, b"404".to_vec());
    assert_eq!(choose_target("missing.js", false), FallbackTarget::NotFound);
}

#[test]
fn fallback_serves_asset_with_its_type() {
    let r = static_handler("/app.js", Some(b"let x;".to_vec()), None);
    assert_eq!(r.status, 200);
    assert_eq!(r.content_type, "text/javascript");
    assert_eq!(r.body, b"let x;".to_vec());
    let r = static_handler("/style.css", Some(b"a{}".to_vec()), None);
    assert_eq!(r.content_type, "text/css");
    let r = static_handler("/blob", Some(vec![1, 2]), None);
    assert_eq!(r.content_type, "application/octet-stream");
}

#[test]
fn fallback_root_and_index() {
    let r = static_handler("/", Some(b"x".to_vec()), Some(b"idx".to_vec()));
    assert_eq!(r.status, 200);
    assert_eq!(r.body, b"idx".to_vec());
    let r = static_handler("/index.html", None, None);
    assert_eq!(r.status, 404);
    assert_eq!(index_html(None).status, 404);
    assert_eq!(not_found().content_type, "");
}

#[test]
fn connection_endpoint() {
    assert_eq!(VirtConnection::new(Some("qemu:///system".to_string())).uri(), "qemu:///system");
    assert_eq!(VirtConnection::new(None).uri(), "");
}

#[test]
fn disconnect_failure_keeps_result() {
    let (r, warning) = VirtConnection::conclude(Ok(5), Err(FacadeError::ConnectFailure));
    assert_eq!(r, Ok(5));
    assert_eq!(warning, Some(FacadeError::DisconnectFailure));
    let (r, warning) = VirtConnection::conclude::<u8>(Err(FacadeError::LookupFailure), Ok(()));
    assert_eq!(r, Err(FacadeError::LookupFailure));
    assert_eq!(warning, None);
}

#[test]
fn hypervisor_version_parts() {
    let v = split_version(6000000 + 10 * 1000 + 3);
    assert_eq!((v.major, v.minor, v.release), (6, 10, 3));
    let v = split_version(999);
    assert_eq!((v.major, v.minor, v.release), (0, 0, 999));
    let v = split_version(4294967295);
    assert_eq!((v.major, v.minor, v.release), (4294, 967, 295));
}
