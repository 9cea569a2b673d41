use ffier::krun::{BlockDeviceBuilder, InitPayload, NetDeviceBuilder, RootFs, VmResources, Vmm};

#[test]
fn init_payload_builder_marks_rootfs() {
    let mut rootfs = RootFs::new("root");
    assert_eq!(rootfs.tag(), "root");
    assert!(!rootfs.has_injected_init());
    {
        let mut b = InitPayload::builder(&mut rootfs);
        b.set_exec("/bin/sh", &["-c", "echo hi"]);
        let payload = b.build();
        assert_eq!(payload.rootfs_tag(), "root");
        assert_eq!(payload.command_line(), "/bin/sh -c echo hi");
    }
    assert!(rootfs.has_injected_init());
}

#[test]
fn builders_reserve_resources() {
    let mut res = VmResources::new();
    let nb = NetDeviceBuilder::new(&mut res);
    let bb = BlockDeviceBuilder::new(&mut res);
    assert_eq!(res.irq_table(), &[1u8, 2u8]);
    assert_eq!(res.shared_mem().len(), 64);
    assert!(res.shared_mem().iter().all(|b| *b == 0xAA));
    let tap = [7u8, 8u8];
    let disk = [9u8];
    let net = nb.build(&tap, &res);
    let block = bb.build(&disk, &res);
    let mut vmm = Vmm::new(&res);
    assert_eq!(vmm.device_count(), 0);
    vmm.add_device(net);
    vmm.add_device(block);
    assert_eq!(vmm.device_count(), 2);
    let lines = vmm.fire_event();
    assert_eq!(lines, vec![
        "  net: got event, irq_table=[1, 2]".to_string(),
        "  block: got event, shared_mem len=64".to_string(),
    ]);
}

#[test]
fn builder_dropped_leaves_rootfs() {
    let mut rootfs = RootFs::new("base");
    {
        let mut b = InitPayload::builder(&mut rootfs);
        b.set_exec("/init", &[]);
    }
    assert_eq!(rootfs.tag(), "base");
    assert!(!rootfs.has_injected_init());
}

#[test]
fn events_reach_devices_in_attach_order() {
    let mut res = VmResources::new();
    let bb = BlockDeviceBuilder::new(&mut res);
    let nb = NetDeviceBuilder::new(&mut res);
    let disk = [1u8];
    let tap = [2u8];
    let block = bb.build(&disk, &res);
    let net = nb.build(&tap, &res);
    let mut vmm = Vmm::new(&res);
    vmm.add_device(block);
    vmm.add_device(net);
    vmm.add_device(block);
    assert_eq!(vmm.device_count(), 3);
    assert_eq!(vmm.fire_event(), vec![
        "  block: got event, shared_mem len=64".to_string(),
        "  net: got event, irq_table=[1, 2]".to_string(),
        "  block: got event, shared_mem len=64".to_string(),
    ]);
    assert_eq!(vmm.device_count(), 3);
}
