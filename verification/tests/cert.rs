use certstore::cert::CertStore;
use certstore::cert::OsError;

#[test]
fn open_wraps_returned_handle() {
    let store = CertStore::memory(0x1000, 0).unwrap().into_store();
    assert_eq!(store.as_inner(), 0x1000);
}

#[test]
fn open_null_handle_is_an_os_error() {
    let r = CertStore::memory(0, 87);
    assert_eq!(r.err().unwrap(), OsError { code: 87 });
}

#[test]
fn accepted_certificate_yields_its_entry() {
    let mut store = CertStore::memory(0x1000, 0).unwrap();
    let entry = store.add_der_certificate(true, 0x2000, 0).unwrap();
    assert_eq!(entry.as_inner(), 0x2000);
}

#[test]
fn rejected_certificate_is_an_os_error() {
    let mut store = CertStore::memory(0x1000, 0).unwrap();
    let r = store.add_der_certificate(false, 0, 13);
    assert_eq!(r.err().unwrap(), OsError { code: 13 });
}

#[test]
fn two_accepted_insertions_yield_two_entries() {
    let mut store = CertStore::memory(0x1000, 0).unwrap();
    let first = store.add_der_certificate(true, 0x2000, 0).unwrap();
    let second = store.add_der_certificate(true, 0x2080, 0).unwrap();
    assert_eq!(first.as_inner(), 0x2000);
    assert_eq!(second.as_inner(), 0x2080);
    assert_ne!(first.as_inner(), second.as_inner());
}

#[test]
fn accepted_ctl_yields_its_entry() {
    let mut store = CertStore::memory(0x1000, 0).unwrap();
    let entry = store.add_der_ctl(true, 0x3000, 0).unwrap();
    assert_eq!(entry.as_inner(), 0x3000);
}

#[test]
fn rejected_ctl_is_an_os_error() {
    let mut store = CertStore::memory(0x1000, 0).unwrap();
    let r = store.add_der_ctl(false, 0, 2148081670);
    assert_eq!(r.err().unwrap(), OsError { code: 2148081670 });
}

#[test]
fn into_store_keeps_the_same_handle() {
    let mut store = CertStore::memory(0x4040, 0).unwrap();
    assert_eq!(store.as_inner(), 0x4040);
    store.add_der_certificate(true, 0x2000, 0).unwrap();
    let plain = store.into_store();
    assert_eq!(plain.as_inner(), 0x4040);
}

#[test]
fn duplicated_wraps_the_returned_handle() {
    let store = CertStore::memory(0x1000, 0).unwrap().into_store();
    let duplicate = store.duplicated(store.as_inner());
    assert_eq!(duplicate.as_inner(), store.as_inner());
}
