use opendal::accessor::AccessorCapability;
use opendal::accessor::AccessorMetadata;
use opendal::accessor::Capabilities;
use opendal::accessor::Scheme;
use opendal::layers::backoff::ConstantPolicy;
use opendal::layers::layer::layered_metadata;
use opendal::layers::Layer;
use opendal::layers::RetryLayer;

const ALL: [AccessorCapability; 6] = [
    AccessorCapability::Read,
    AccessorCapability::Write,
    AccessorCapability::List,
    AccessorCapability::Presign,
    AccessorCapability::Multipart,
    AccessorCapability::Blocking,
];

#[test]
fn capability_flags_are_the_documented_bits() {
    assert_eq!(AccessorCapability::Read.bit(), 1);
    assert_eq!(AccessorCapability::Write.bit(), 2);
    assert_eq!(AccessorCapability::List.bit(), 4);
    assert_eq!(AccessorCapability::Presign.bit(), 8);
    assert_eq!(AccessorCapability::Multipart.bit(), 16);
    assert_eq!(AccessorCapability::Blocking.bit(), 32);
}

#[test]
fn empty_capabilities_hold_nothing() {
    let c = Capabilities::empty();
    assert_eq!(c.bits(), 0);
    for cap in ALL {
        assert!(!c.has(cap));
    }
}

#[test]
fn with_adds_exactly_one_capability() {
    for cap in ALL {
        let c = Capabilities::empty().with(cap);
        assert_eq!(c.bits(), cap.bit());
        for other in ALL {
            assert_eq!(c.has(other), other == cap);
        }
        assert_eq!(c.with(cap), c);
    }
    let rw = Capabilities::empty()
        .with(AccessorCapability::Read)
        .with(AccessorCapability::Write);
    assert_eq!(rw.bits(), 3);
}

#[test]
fn intersect_keeps_what_both_hold() {
    let rwl = Capabilities::empty()
        .with(AccessorCapability::Read)
        .with(AccessorCapability::Write)
        .with(AccessorCapability::List);
    let lp = Capabilities::empty()
        .with(AccessorCapability::List)
        .with(AccessorCapability::Presign);
    let both = rwl.intersect(lp);
    assert_eq!(both.bits(), 4);
    assert!(both.is_subset_of(&rwl));
    assert!(both.is_subset_of(&lp));
}

#[test]
fn subset_is_told_exactly() {
    let r = Capabilities::empty().with(AccessorCapability::Read);
    let rw = r.with(AccessorCapability::Write);
    let b = Capabilities::empty().with(AccessorCapability::Blocking);
    assert!(Capabilities::empty().is_subset_of(&r));
    assert!(r.is_subset_of(&r));
    assert!(r.is_subset_of(&rw));
    assert!(!rw.is_subset_of(&r));
    assert!(!b.is_subset_of(&rw));
    assert!(!rw.is_subset_of(&b));
}

fn sample_metadata() -> AccessorMetadata {
    let caps = Capabilities::empty()
        .with(AccessorCapability::Read)
        .with(AccessorCapability::List);
    AccessorMetadata::new(Scheme::Azblob, "/root/", "container", caps)
}

#[test]
fn metadata_keeps_what_it_was_made_of() {
    let m = sample_metadata();
    assert_eq!(m.scheme(), Scheme::Azblob);
    assert_eq!(m.root(), "/root/");
    assert_eq!(m.name(), "container");
    assert_eq!(m.capabilities().bits(), 5);
}

#[test]
fn restricted_metadata_loses_capabilities_only() {
    let keep = Capabilities::empty()
        .with(AccessorCapability::List)
        .with(AccessorCapability::Write);
    let m = sample_metadata().restricted_to(keep);
    assert_eq!(m.capabilities().bits(), 4);
    assert_eq!(m.root(), "/root/");
    assert_eq!(m.name(), "container");
    assert_eq!(m.scheme(), Scheme::Azblob);
}

#[test]
fn retry_layer_keeps_the_metadata() {
    let layer = RetryLayer::new(ConstantPolicy::default());
    let inner = sample_metadata();
    let outer = layer.metadata(inner.clone());
    assert_eq!(outer, inner);
}

#[test]
fn layers_never_add_a_capability() {
    let base = sample_metadata();
    let layers = vec![
        RetryLayer::new(ConstantPolicy::default()),
        RetryLayer::new(ConstantPolicy::default().with_max_times(0)),
    ];
    let outer = layered_metadata(&layers, base.clone());
    assert!(outer.capabilities().is_subset_of(&base.capabilities()));
    assert_eq!(outer, base);
    let none: Vec<RetryLayer<ConstantPolicy>> = Vec::new();
    assert_eq!(layered_metadata(&none, base.clone()), base);
}
