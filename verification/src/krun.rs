//! A miniature VMM exported over FFI: VM resources, a root filesystem, an
//! init payload built from a borrowed root filesystem, and devices attached
//! to a VMM that forwards events to them.

use vstd::prelude::*;
use crate::text::{decimal, join_spec, owned, push_decimal, push_str, strs_view};

verus! {

// ---------------------------------------------------------------------------
// VM resources
// ---------------------------------------------------------------------------

/// Memory shared by the devices of a VM.
pub struct VmResources {
    irq_table: Vec<u8>,
    shared_mem: Vec<u8>,
}

/// The state of [`VmResources`].
pub struct VmResourcesView {
    pub irq_table: Seq<u8>,
    pub shared_mem: Seq<u8>,
}

impl View for VmResources {
    type V = VmResourcesView;

    closed spec fn view(&self) -> VmResourcesView {
        VmResourcesView { irq_table: self.irq_table@, shared_mem: self.shared_mem@ }
    }
}

impl VmResources {
    /// Empty resources.
    pub fn new() -> (r: VmResources)
        ensures
            r@.irq_table == Seq::<u8>::empty(),
            r@.shared_mem == Seq::<u8>::empty(),
    {
        VmResources { irq_table: Vec::new(), shared_mem: Vec::new() }
    }

    /// The IRQ table.
    pub fn irq_table(&self) -> (r: &[u8])
        ensures
            r@ == self@.irq_table,
    {
        self.irq_table.as_slice()
    }

    /// The shared memory.
    pub fn shared_mem(&self) -> (r: &[u8])
        ensures
            r@ == self@.shared_mem,
    {
        self.shared_mem.as_slice()
    }
}

impl Default for VmResources {
    fn default() -> (r: VmResources)
        ensures
            r@.irq_table == Seq::<u8>::empty(),
            r@.shared_mem == Seq::<u8>::empty(),
    {
        VmResources::new()
    }
}

// ---------------------------------------------------------------------------
// Root filesystem and init payload
// ---------------------------------------------------------------------------

/// A root filesystem identified by a tag.
pub struct RootFs {
    tag: String,
    has_injected_init: bool,
}

/// The state of a [`RootFs`].
pub struct RootFsView {
    pub tag: Seq<char>,
    pub has_injected_init: bool,
}

impl View for RootFs {
    type V = RootFsView;

    closed spec fn view(&self) -> RootFsView {
        RootFsView { tag: self.tag@, has_injected_init: self.has_injected_init }
    }
}

impl RootFs {
    /// A root filesystem with the given tag and no injected init.
    pub fn new(tag: &str) -> (r: RootFs)
        ensures
            r@.tag == tag@,
            !r@.has_injected_init,
    {
        RootFs { tag: owned(tag), has_injected_init: false }
    }

    /// The tag.
    pub fn tag(&self) -> (r: &str)
        ensures
            r@ == self@.tag,
    {
        self.tag.as_str()
    }

    /// Whether an init payload has been built on this filesystem.
    pub fn has_injected_init(&self) -> (r: bool)
        ensures
            r == self@.has_injected_init,
    {
        self.has_injected_init
    }
}

/// The guest command line: the executable path followed by each argument,
/// each preceded by one space.
pub open spec fn command_line_spec(exec_path: Seq<char>, args: Seq<Seq<char>>) -> Seq<char>
    decreases args.len(),
{
    if args.len() == 0 {
        exec_path
    } else {
        command_line_spec(exec_path, args.drop_last()) + seq![' '] + args.last()
    }
}

/// An init payload for a root filesystem.
pub struct InitPayload<'a> {
    rootfs_tag: &'a str,
    command_line: String,
}

/// The contents of an [`InitPayload`].
pub struct InitPayloadView {
    pub rootfs_tag: Seq<char>,
    pub command_line: Seq<char>,
}

impl<'a> View for InitPayload<'a> {
    type V = InitPayloadView;

    closed spec fn view(&self) -> InitPayloadView {
        InitPayloadView { rootfs_tag: self.rootfs_tag@, command_line: self.command_line@ }
    }
}

/// Builds an [`InitPayload`] while holding the root filesystem mutably.
pub struct InitPayloadBuilder<'a> {
    rootfs: &'a mut RootFs,
    command_line: String,
}

impl<'a> InitPayloadBuilder<'a> {
    /// The root filesystem the builder holds, as it is now.
    pub closed spec fn rootfs_now(&self) -> RootFsView {
        (*self.rootfs)@
    }

    /// The mutable borrow of the root filesystem that the builder holds.
    pub closed spec fn rootfs_borrow(&self) -> &'a mut RootFs {
        self.rootfs
    }

    /// The command line set so far.
    pub closed spec fn command_line_now(&self) -> Seq<char> {
        self.command_line@
    }

    /// A builder let go of without `build` leaves the root filesystem as it
    /// found it: once the builder is resolved, the filesystem's final value
    /// is the one the builder holds.
    pub proof fn lemma_dropped_keeps_rootfs(b: InitPayloadBuilder<'a>)
        requires
            has_resolved(b),
        ensures
            *final(b.rootfs_borrow()) == *b.rootfs_borrow(),
    {
    }
}

impl<'a> InitPayload<'a> {
    /// Create a payload builder that borrows an existing root filesystem.
    pub fn builder(rootfs: &'a mut RootFs) -> (r: InitPayloadBuilder<'a>)
        ensures
            r.rootfs_now() == old(rootfs)@,
            *r.rootfs_borrow() == *old(rootfs),
            *final(r.rootfs_borrow()) == *final(rootfs),
            r.command_line_now() == Seq::<char>::empty(),
    {
        InitPayloadBuilder { rootfs, command_line: String::new() }
    }

    /// The tag of the root filesystem.
    pub fn rootfs_tag(&self) -> (r: &str)
        ensures
            r@ == self@.rootfs_tag,
    {
        self.rootfs_tag
    }

    /// The guest command line.
    pub fn command_line(&self) -> (r: &str)
        ensures
            r@ == self@.command_line,
    {
        self.command_line.as_str()
    }
}

impl<'a> InitPayloadBuilder<'a> {
    /// Set the guest command line to the executable path followed by the
    /// arguments, separated by single spaces.
    pub fn set_exec(&mut self, exec_path: &str, args: &[&str])
        ensures
            final(self).command_line_now() == command_line_spec(exec_path@, strs_view(args@)),
            final(self).rootfs_now() == old(self).rootfs_now(),
            *final(self).rootfs_borrow() == *old(self).rootfs_borrow(),
            *final(final(self).rootfs_borrow()) == *final(old(self).rootfs_borrow()),
    {
        let mut command_line = owned(exec_path);
        let ghost av = strs_view(args@);
        let mut i: usize = 0;
        while i < args.len()
            invariant
                i <= args@.len(),
                av == strs_view(args@),
                command_line@ == command_line_spec(exec_path@, av.take(i as int)),
            decreases args@.len() - i,
        {
            crate::text::push_char(&mut command_line, ' ');
            push_str(&mut command_line, args[i]);
            i = i + 1;
            assert(av.take(i as int).drop_last() =~= av.take(i - 1));
            assert(av.take(i as int).last() == args@[i - 1]@);
            assert(command_line@ =~= command_line_spec(exec_path@, av.take(i as int)));
        }
        assert(av.take(args@.len() as int) =~= av);
        self.command_line = command_line;
    }

    /// Finalize the payload and mark the root filesystem as containing an
    /// injected init: when the builder lets go of the filesystem, it has
    /// the same tag and `has_injected_init` set.
    pub fn build(self) -> (r: InitPayload<'a>)
        ensures
            r@.rootfs_tag == self.rootfs_now().tag,
            r@.command_line == self.command_line_now(),
            (*final(self.rootfs_borrow()))@.tag == self.rootfs_now().tag,
            (*final(self.rootfs_borrow()))@.has_injected_init,
    {
        let InitPayloadBuilder { rootfs, command_line } = self;
        rootfs.has_injected_init = true;
        let shared: &'a RootFs = rootfs;
        InitPayload { rootfs_tag: shared.tag.as_str(), command_line }
    }
}

// ---------------------------------------------------------------------------
// Devices
// ---------------------------------------------------------------------------

/// Something notified of VM events.  Handling an event yields the log line
/// it reports.
pub trait EventSubscriber {
    fn on_event(&self) -> String;
}

/// A device attached to a VM.
pub trait Device<'a>: EventSubscriber {
    fn name(&self) -> &str;

    fn data(&self) -> &'a [u8];
}

/// A network device reading from a tap buffer.
#[derive(Clone, Copy)]
pub struct NetDevice<'a> {
    tap_buf: &'a [u8],
    irq_table: &'a [u8],
}

/// A block device backed by a disk image.
#[derive(Clone, Copy)]
pub struct BlockDevice<'a> {
    disk_image: &'a [u8],
    shared_mem: &'a [u8],
}

/// The buffers a device refers to.
pub struct DeviceBuffers {
    pub data: Seq<u8>,
    pub resource: Seq<u8>,
}

impl<'a> View for NetDevice<'a> {
    type V = DeviceBuffers;

    closed spec fn view(&self) -> DeviceBuffers {
        DeviceBuffers { data: self.tap_buf@, resource: self.irq_table@ }
    }
}

impl<'a> View for BlockDevice<'a> {
    type V = DeviceBuffers;

    closed spec fn view(&self) -> DeviceBuffers {
        DeviceBuffers { data: self.disk_image@, resource: self.shared_mem@ }
    }
}

/// `{:?}` of a byte slice: `[1, 2, 3]`.
pub open spec fn debug_bytes(s: Seq<u8>) -> Seq<char> {
    seq!['['] + join_spec(s.map_values(|b: u8| decimal(b as nat)), ", "@) + seq![']']
}

/// The line a network device logs on an event.
pub open spec fn net_event_line(irq_table: Seq<u8>) -> Seq<char> {
    "  net: got event, irq_table="@ + debug_bytes(irq_table)
}

/// The line a block device logs on an event.
pub open spec fn block_event_line(shared_mem: Seq<u8>) -> Seq<char> {
    "  block: got event, shared_mem len="@ + decimal(shared_mem.len())
}

/// Appends `{:?}` of a byte slice.
fn push_debug_bytes(out: &mut String, s: &[u8])
    ensures
        final(out)@ == old(out)@ + debug_bytes(s@),
{
    let ghost parts = s@.map_values(|b: u8| decimal(b as nat));
    crate::text::push_char(out, '[');
    let ghost o1 = out@;
    let mut i: usize = 0;
    while i < s.len()
        invariant
            i <= s@.len(),
            parts == s@.map_values(|b: u8| decimal(b as nat)),
            out@ == o1 + join_spec(parts.take(i as int), ", "@),
        decreases s@.len() - i,
    {
        if i > 0 {
            push_str(out, ", ");
        }
        push_decimal(out, s[i] as u64);
        i = i + 1;
        assert(parts.take(i as int).drop_last() =~= parts.take(i - 1));
        assert(parts.take(i as int).last() == decimal(s@[i - 1] as nat));
        if i == 1 {
            assert(parts.take(1)[0] == decimal(s@[0] as nat));
        }
        assert(out@ =~= o1 + join_spec(parts.take(i as int), ", "@));
    }
    assert(parts.take(s@.len() as int) =~= parts);
    crate::text::push_char(out, ']');
    assert(out@ =~= old(out)@ + debug_bytes(s@));
}

impl<'a> NetDevice<'a> {
    /// The line this device logs on an event.
    pub fn event_line(&self) -> (r: String)
        ensures
            r@ == net_event_line(self@.resource),
    {
        let mut out = owned("  net: got event, irq_table=");
        push_debug_bytes(&mut out, self.irq_table);
        out
    }
}

impl<'a> BlockDevice<'a> {
    /// The line this device logs on an event.
    pub fn event_line(&self) -> (r: String)
        ensures
            r@ == block_event_line(self@.resource),
    {
        let mut out = owned("  block: got event, shared_mem len=");
        push_decimal(&mut out, self.shared_mem.len() as u64);
        out
    }
}

impl<'a> EventSubscriber for NetDevice<'a> {
    fn on_event(&self) -> (r: String)
        ensures
            r@ == net_event_line(self@.resource),
    {
        self.event_line()
    }
}

impl<'a> Device<'a> for NetDevice<'a> {
    fn name(&self) -> (r: &str)
        ensures
            r@ == "net"@,
    {
        "net"
    }

    fn data(&self) -> (r: &'a [u8])
        ensures
            r@ == self@.data,
    {
        self.tap_buf
    }
}

impl<'a> EventSubscriber for BlockDevice<'a> {
    fn on_event(&self) -> (r: String)
        ensures
            r@ == block_event_line(self@.resource),
    {
        self.event_line()
    }
}

impl<'a> Device<'a> for BlockDevice<'a> {
    fn name(&self) -> (r: &str)
        ensures
            r@ == "block"@,
    {
        "block"
    }

    fn data(&self) -> (r: &'a [u8])
        ensures
            r@ == self@.data,
    {
        self.disk_image
    }
}

/// A device handed to the VMM.
#[derive(Clone, Copy)]
pub enum AttachedDevice<'a> {
    Net(NetDevice<'a>),
    Block(BlockDevice<'a>),
}

/// The line an attached device logs on an event.
pub open spec fn event_line_of(d: AttachedDevice) -> Seq<char> {
    match d {
        AttachedDevice::Net(n) => net_event_line(n@.resource),
        AttachedDevice::Block(b) => block_event_line(b@.resource),
    }
}

impl<'a> EventSubscriber for AttachedDevice<'a> {
    fn on_event(&self) -> (r: String)
        ensures
            r@ == event_line_of(*self),
    {
        match self {
            AttachedDevice::Net(n) => n.event_line(),
            AttachedDevice::Block(b) => b.event_line(),
        }
    }
}

/// Conversion of a device into the form the VMM holds.
pub trait IntoDevice<'a> {
    /// The device in the form the VMM holds.
    spec fn as_device(&self) -> AttachedDevice<'a>;

    fn into_device(self) -> (r: AttachedDevice<'a>)
        ensures
            r == self.as_device(),
    ;
}

impl<'a> IntoDevice<'a> for NetDevice<'a> {
    open spec fn as_device(&self) -> AttachedDevice<'a> {
        AttachedDevice::Net(*self)
    }

    fn into_device(self) -> (r: AttachedDevice<'a>)
        ensures
            r == AttachedDevice::Net(self),
    {
        AttachedDevice::Net(self)
    }
}

impl<'a> IntoDevice<'a> for BlockDevice<'a> {
    open spec fn as_device(&self) -> AttachedDevice<'a> {
        AttachedDevice::Block(*self)
    }

    fn into_device(self) -> (r: AttachedDevice<'a>)
        ensures
            r == AttachedDevice::Block(self),
    {
        AttachedDevice::Block(self)
    }
}

impl<'a> IntoDevice<'a> for AttachedDevice<'a> {
    open spec fn as_device(&self) -> AttachedDevice<'a> {
        *self
    }

    fn into_device(self) -> (r: AttachedDevice<'a>)
        ensures
            r == self,
    {
        self
    }
}

/// Builds a [`NetDevice`].
pub struct NetDeviceBuilder;

impl NetDeviceBuilder {
    /// Prepare a net device builder, reserving IRQ resources (appends the
    /// entries 1 and 2 to the IRQ table).
    pub fn new(resources: &mut VmResources) -> (r: NetDeviceBuilder)
        ensures
            final(resources)@.irq_table == old(resources)@.irq_table + seq![1u8, 2u8],
            final(resources)@.shared_mem == old(resources)@.shared_mem,
    {
        resources.irq_table.push(1u8);
        resources.irq_table.push(2u8);
        NetDeviceBuilder
    }

    /// Build the network device over the tap buffer and the IRQ table.
    pub fn build<'a>(self, tap_buf: &'a [u8], resources: &'a VmResources) -> (r: NetDevice<'a>)
        ensures
            r@.data == tap_buf@,
            r@.resource == resources@.irq_table,
    {
        NetDevice { tap_buf, irq_table: resources.irq_table.as_slice() }
    }
}

impl Default for NetDeviceBuilder {
    fn default() -> (r: NetDeviceBuilder) {
        NetDeviceBuilder
    }
}

/// `Vec::resize(len, value)` on a sequence.
pub open spec fn resize_spec(s: Seq<u8>, len: nat, value: u8) -> Seq<u8> {
    if len <= s.len() {
        s.take(len as int)
    } else {
        s + Seq::new((len - s.len()) as nat, |_i: int| value)
    }
}

/// Builds a [`BlockDevice`].
pub struct BlockDeviceBuilder;

impl BlockDeviceBuilder {
    /// Prepare a block device builder, reserving shared memory: the shared
    /// memory is resized to 64 bytes, new bytes being `0xAA`.
    pub fn new(resources: &mut VmResources) -> (r: BlockDeviceBuilder)
        ensures
            final(resources)@.shared_mem == resize_spec(old(resources)@.shared_mem, 64, 0xAAu8),
            final(resources)@.irq_table == old(resources)@.irq_table,
    {
        let old_len = resources.shared_mem.len();
        resources.shared_mem.resize(64, 0xAAu8);
        assert(resources.shared_mem@ =~= resize_spec(old(resources)@.shared_mem, 64, 0xAAu8));
        BlockDeviceBuilder
    }

    /// Build the block device over the disk image and the shared memory.
    pub fn build<'a>(self, disk_image: &'a [u8], resources: &'a VmResources) -> (r: BlockDevice<'a>)
        ensures
            r@.data == disk_image@,
            r@.resource == resources@.shared_mem,
    {
        BlockDevice { disk_image, shared_mem: resources.shared_mem.as_slice() }
    }
}

impl Default for BlockDeviceBuilder {
    fn default() -> (r: BlockDeviceBuilder) {
        BlockDeviceBuilder
    }
}

// ---------------------------------------------------------------------------
// VMM
// ---------------------------------------------------------------------------

/// The MMIO transport of one attached device.
pub struct MmioTransport<'a> {
    device: AttachedDevice<'a>,
}

/// One attached device: its transport, and its registration as an event
/// subscriber.
pub struct Attachment<'a> {
    transport: MmioTransport<'a>,
    subscriber: AttachedDevice<'a>,
}

/// After `k` additions the list holds the first `k` devices added.
proof fn lemma_prefix_states<'a>(states: Seq<Seq<AttachedDevice<'a>>>, added: Seq<AttachedDevice<'a>>, k: int)
    requires
        states.len() == added.len() + 1,
        states[0] == Seq::<AttachedDevice<'a>>::empty(),
        forall|j: int| 0 <= j < added.len() ==> #[trigger] states[j + 1] == states[j].push(added[j]),
        0 <= k <= added.len(),
    ensures
        states[k] == added.take(k),
    decreases k,
{
    if k == 0 {
        assert(added.take(0) =~= Seq::<AttachedDevice<'a>>::empty());
    } else {
        lemma_prefix_states(states, added, k - 1);
        assert(states[(k - 1) + 1] == states[k - 1].push(added[k - 1]));
        assert(added.take(k) =~= added.take(k - 1).push(added[k - 1]));
    }
}

/// A VMM bound to VM resources, with attached devices.
pub struct Vmm<'a> {
    resources: &'a VmResources,
    attachments: Vec<Attachment<'a>>,
}

impl<'a> Vmm<'a> {
    /// The attached devices (as event subscribers), in attachment order.
    pub closed spec fn devices(&self) -> Seq<AttachedDevice<'a>> {
        self.attachments@.map_values(|a: Attachment<'a>| a.subscriber)
    }

    /// The devices behind the MMIO transports, in attachment order.
    pub closed spec fn transport_devices(&self) -> Seq<AttachedDevice<'a>> {
        self.attachments@.map_values(|a: Attachment<'a>| a.transport.device)
    }

    /// The VM resources the VMM is bound to.
    pub closed spec fn resources(&self) -> VmResources {
        *self.resources
    }

    /// Create a new VMM bound to the given resources, with no devices.
    pub fn new(resources: &'a VmResources) -> (r: Vmm<'a>)
        ensures
            r.devices() == Seq::<AttachedDevice<'a>>::empty(),
            r.transport_devices() == Seq::<AttachedDevice<'a>>::empty(),
            r.resources() == *resources,
    {
        let r = Vmm { resources, attachments: Vec::new() };
        assert(r.devices() =~= Seq::<AttachedDevice<'a>>::empty());
        assert(r.transport_devices() =~= Seq::<AttachedDevice<'a>>::empty());
        r
    }

    /// Add a device to the VMM: it gets a transport and is subscribed to
    /// events after the devices already attached.
    pub fn add_device<D: IntoDevice<'a>>(&mut self, dev: D)
        ensures
            final(self).devices() == old(self).devices().push(dev.as_device()),
            final(self).transport_devices() == old(self).transport_devices().push(dev.as_device()),
            final(self).resources() == old(self).resources(),
    {
        let d = dev.into_device();
        self.attachments.push(Attachment { transport: MmioTransport { device: d }, subscriber: d });
        assert(self.devices() =~= old(self).devices().push(d));
        assert(self.transport_devices() =~= old(self).transport_devices().push(d));
    }

    /// Number of attached devices (as `i32`, wrapping like `as i32`).
    pub fn device_count(&self) -> (r: i32)
        ensures
            r == self.devices().len() as i32,
    {
        self.attachments.len() as i32
    }

    /// A VMM made by `new` and then given the devices `added`, one
    /// `add_device` after the other (`states[k]` is its device list after `k`
    /// of them), holds exactly those devices in that order: `device_count`
    /// gives their number and `fire_event` reaches each of them once, in the
    /// order they were added.
    pub proof fn lemma_devices_after_adds(states: Seq<Seq<AttachedDevice<'a>>>, added: Seq<AttachedDevice<'a>>)
        requires
            states.len() == added.len() + 1,
            states[0] == Seq::<AttachedDevice<'a>>::empty(),
            forall|k: int| 0 <= k < added.len() ==> #[trigger] states[k + 1] == states[k].push(added[k]),
        ensures
            states.last() == added,
            states.last().len() as i32 == added.len() as i32,
            forall|i: int| 0 <= i < added.len() ==> event_line_of(#[trigger] states.last()[i]) == event_line_of(added[i]),
    {
        lemma_prefix_states(states, added, added.len() as int);
        assert(states.last() == states[added.len() as int]);
    }

    /// Fire an event to all subscribers; returns the lines they log, in
    /// attachment order.
    pub fn fire_event(&self) -> (r: Vec<String>)
        ensures
            r@.len() == self.devices().len(),
            forall|i: int| 0 <= i < r@.len() ==> (#[trigger] r@[i])@ == event_line_of(self.devices()[i]),
    {
        let mut lines: Vec<String> = Vec::new();
        let mut i: usize = 0;
        while i < self.attachments.len()
            invariant
                i <= self.attachments@.len(),
                lines@.len() == i,
                forall|j: int| 0 <= j < i ==> (#[trigger] lines@[j])@ == event_line_of(self.devices()[j]),
            decreases self.attachments@.len() - i,
        {
            let line = self.attachments[i].subscriber.on_event();
            lines.push(line);
            i = i + 1;
        }
        lines
    }
}

} // verus!
