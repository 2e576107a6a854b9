use surface_handoff::AppCodeName;
use surface_handoff::AppName;
use surface_handoff::AppVersion;
use surface_handoff::DomRefCell;
use surface_handoff::Product;
use surface_handoff::TaintEnabled;
use surface_handoff::WebrenderExternalImageRegistry;
use surface_handoff::WebrenderImageHandlerType;

#[test]
fn registry_hands_out_unique_ids_and_remembers_kinds() {
    let mut reg = WebrenderExternalImageRegistry::new();
    let a = reg.next_id(WebrenderImageHandlerType::WebGL);
    let b = reg.next_id(WebrenderImageHandlerType::Media);
    assert_ne!(a, b);
    assert_eq!(reg.get(a), Some(WebrenderImageHandlerType::WebGL));
    assert_eq!(reg.get(b), Some(WebrenderImageHandlerType::Media));
    reg.remove(a);
    assert_eq!(reg.get(a), None);
    assert_eq!(reg.get(b), Some(WebrenderImageHandlerType::Media));
    let c = reg.next_id(WebrenderImageHandlerType::WebGL);
    assert_ne!(c, b, "identifiers are never reused");
    assert_ne!(c, a);
}

#[test]
fn dom_ref_cell_stores_and_mutates() {
    let mut cell = DomRefCell::new(10i32);
    assert_eq!(*cell.borrow(), 10);
    *cell.borrow_mut() = 33;
    assert_eq!(*cell.borrow(), 33);
}

#[test]
fn navigator_strings_are_fixed() {
    assert_eq!(Product().str(), "Gecko");
    assert_eq!(AppName().str(), "Netscape");
    assert_eq!(AppCodeName().str(), "Mozilla");
    assert_eq!(AppVersion().str(), "4.0");
    assert!(!TaintEnabled());
}
