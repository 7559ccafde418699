//! OS driver support.
//!
//! The registry holds up to [`NUM_DRIVERS`] driver descriptors in
//! registration order.  Driver initialization itself touches hardware, so
//! the embedder walks the registered descriptors in order, calls each
//! driver's `init` and then its post-init callback, and panics on the first
//! failure, exactly as bring-up demands.

use vstd::prelude::*;
use crate::synchronization::Mutex;
use crate::synchronization::NullLock;

verus! {

/// The capacity of the driver registry.
pub const NUM_DRIVERS: usize = 5;

/// Driver interface.
pub trait DeviceDriver {
    /// A string identifying the driver.
    fn compatible(&self) -> &'static str;

    /// Called by the kernel to initialize the device.
    fn init(&self) -> (r: Result<(), &'static str>) {
        Ok(())
    }
}

/// Describes one device driver: the driver itself and its optional
/// post-init callback, invoked after the device was successfully
/// initialized.  The callback type is the embedder's; a plain function
/// value fits.
pub struct DeviceDriverDescriptor<D, C> {
    device_driver: D,
    post_init_callback: Option<C>,
}

impl<D, C> DeviceDriverDescriptor<D, C> {
    /// The described driver.
    pub closed spec fn spec_device_driver(&self) -> D {
        self.device_driver
    }

    /// The optional post-init callback.
    pub closed spec fn spec_post_init_callback(&self) -> Option<C> {
        self.post_init_callback
    }

    /// Create an instance.
    pub fn new(device_driver: D, post_init_callback: Option<C>) -> (r: Self)
        ensures
            r.spec_device_driver() == device_driver,
            r.spec_post_init_callback() == post_init_callback,
    {
        Self { device_driver, post_init_callback }
    }

    /// The described driver.
    pub fn device_driver(&self) -> (r: &D)
        ensures
            *r == self.spec_device_driver(),
    {
        &self.device_driver
    }

    /// The optional post-init callback.
    pub fn post_init_callback(&self) -> (r: &Option<C>)
        ensures
            *r == self.spec_post_init_callback(),
    {
        &self.post_init_callback
    }
}

/// The registry's inner state: the registered descriptors, in order.
pub struct DriverManagerInner<D, C> {
    next_index: usize,
    descriptors: Vec<Option<DeviceDriverDescriptor<D, C>>>,
}

impl<D, C> DriverManagerInner<D, C> {
    /// The number of registered drivers.
    pub closed spec fn spec_next_index(&self) -> usize {
        self.next_index
    }

    /// The descriptor slots.
    pub closed spec fn spec_descriptors(&self) -> Seq<Option<DeviceDriverDescriptor<D, C>>> {
        self.descriptors@
    }

    /// Well-formedness: exactly [`NUM_DRIVERS`] slots, the first
    /// `next_index` of them filled in registration order, the rest empty.
    pub open spec fn wf(&self) -> bool {
        &&& self.spec_descriptors().len() == NUM_DRIVERS
        &&& self.spec_next_index() <= NUM_DRIVERS
        &&& forall|i: int|
            0 <= i < self.spec_next_index() ==> (#[trigger] self.spec_descriptors()[i]) is Some
        &&& forall|i: int|
            self.spec_next_index() <= i < NUM_DRIVERS ==> (
            #[trigger] self.spec_descriptors()[i]) is None
    }

    /// The number of registered drivers.
    pub fn num_registered(&self) -> (r: usize)
        ensures
            r == self.spec_next_index(),
    {
        self.next_index
    }

    /// The descriptor slot at `i`.
    pub fn descriptor_at(&self, i: usize) -> (r: &Option<DeviceDriverDescriptor<D, C>>)
        requires
            i < self.spec_descriptors().len(),
        ensures
            *r == self.spec_descriptors()[i as int],
    {
        &self.descriptors[i]
    }

    /// Create an empty registry state.
    pub fn new() -> (r: Self)
        ensures
            r.wf(),
            r.spec_next_index() == 0,
    {
        let mut descriptors: Vec<Option<DeviceDriverDescriptor<D, C>>> = Vec::new();
        let mut i: usize = 0;
        while i < NUM_DRIVERS
            invariant
                i <= NUM_DRIVERS,
                descriptors@.len() == i,
                forall|k: int| 0 <= k < i ==> (#[trigger] descriptors@[k]) is None,
            decreases NUM_DRIVERS - i,
        {
            descriptors.push(None);
            i = i + 1;
        }
        Self { next_index: 0, descriptors }
    }
}

/// Manages all device drivers of the kernel.
pub struct DriverManager<D, C> {
    inner: NullLock<DriverManagerInner<D, C>>,
}

/// Create the driver manager; the embedder owns the single instance.
pub fn driver_manager<D, C>() -> (r: DriverManager<D, C>)
    ensures
        r.wf(),
        r.spec_inner().spec_next_index() == 0,
{
    DriverManager::new()
}

impl<D, C> DriverManager<D, C> {
    /// The registry state behind the lock.
    pub closed spec fn spec_inner(&self) -> DriverManagerInner<D, C> {
        self.inner.spec_data()
    }

    /// Well-formedness of the registry state.
    pub open spec fn wf(&self) -> bool {
        self.spec_inner().wf()
    }

    /// Create an instance.
    pub fn new() -> (r: Self)
        ensures
            r.wf(),
            r.spec_inner().spec_next_index() == 0,
    {
        Self { inner: NullLock::new(DriverManagerInner::new()) }
    }

    /// Register a device driver with the kernel.
    pub fn register_driver(&mut self, descriptor: DeviceDriverDescriptor<D, C>)
        requires
            old(self).wf(),
            old(self).spec_inner().spec_next_index() < NUM_DRIVERS,
        ensures
            final(self).wf(),
            final(self).spec_inner().spec_next_index() == old(self).spec_inner().spec_next_index()
                + 1,
            final(self).spec_inner().spec_descriptors()[old(self).spec_inner().spec_next_index() as int]
                == Some(descriptor),
            forall|i: int|
                0 <= i < old(self).spec_inner().spec_next_index()
                    ==> (#[trigger] final(self).spec_inner().spec_descriptors()[i]) == old(
                    self,
                ).spec_inner().spec_descriptors()[i],
    {
        let inner = self.inner.lock();
        let idx: usize = inner.next_index;
        inner.descriptors[idx] = Some(descriptor);
        inner.next_index = idx + 1;
    }

    /// The number of registered drivers.
    pub fn num_registered(&mut self) -> (r: usize)
        requires
            old(self).wf(),
        ensures
            final(self).spec_inner() == old(self).spec_inner(),
            r == old(self).spec_inner().spec_next_index(),
    {
        let inner = self.inner.lock();
        inner.next_index
    }

    /// Exclusive access to the registry state, for walking the registered
    /// descriptors during driver initialization and enumeration.
    pub fn inner(&mut self) -> (r: &mut DriverManagerInner<D, C>)
        ensures
            *r == old(self).spec_inner(),
            final(self).spec_inner() == *final(r),
    {
        self.inner.lock()
    }
}

} // verus!
