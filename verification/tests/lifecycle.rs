use sherpa_rs::error::Error;
use sherpa_rs::lifecycle::{complete_create, LifecycleLedger};
use sherpa_rs::marshal::TransientStrings;

#[test]
fn n_cycles_make_n_creates_and_n_destroys() {
    let mut ledger = LifecycleLedger::new();
    let n: u64 = 5;
    for i in 0..n {
        let mut strings = TransientStrings::new();
        strings.add("model.onnx");
        let handle = complete_create(0x1000 + i as usize, &mut strings, &mut ledger)
            .expect("create with a valid configuration");
        assert_eq!(ledger.creates(), i + 1);
        assert_eq!(ledger.destroys(), i);
        let addr = handle.release(&mut ledger);
        assert_eq!(addr, 0x1000 + i as usize);
        assert_eq!(ledger.destroys(), i + 1);
    }
    assert_eq!(ledger.creates(), n);
    assert_eq!(ledger.destroys(), n);
}

#[test]
fn construction_failure_keeps_no_handle_and_no_strings() {
    let mut ledger = LifecycleLedger::new();
    let mut strings = TransientStrings::new();
    strings.add("bad path.onnx");
    strings.add("provider");
    assert_eq!(strings.len(), 2);
    let r = complete_create(0, &mut strings, &mut ledger);
    assert!(matches!(r, Err(Error::ConstructionFailure)));
    assert_eq!(strings.len(), 0);
    assert_eq!(ledger.creates(), 0);
    assert_eq!(ledger.destroys(), 0);
}

#[test]
fn successful_create_releases_strings_too() {
    let mut ledger = LifecycleLedger::new();
    let mut strings = TransientStrings::new();
    strings.add("model.onnx");
    let r = complete_create(0xbeef, &mut strings, &mut ledger);
    assert!(r.is_ok());
    assert_eq!(strings.len(), 0);
    assert_eq!(r.unwrap().addr(), 0xbeef);
}
