//! Tests of the board package, driver registry, console, synchronization
//! and the remaining utility code.

use hos_kernel::bsp::raspberrypi::board_name;
use hos_kernel::bsp::raspberrypi::memory::memory_map;
use hos_kernel::bsp::raspberrypi::memory::mmu::code_range_inclusive;
use hos_kernel::bsp::raspberrypi::memory::mmu::kernel_addr_space;
use hos_kernel::bsp::raspberrypi::memory::mmu::mmio_range_inclusive;
use hos_kernel::bsp::raspberrypi::memory::mmu::virt_mem_layout;
use hos_kernel::console::null_console::NullConsole;
use hos_kernel::console::Read;
use hos_kernel::console::Statistics;
use hos_kernel::console::Write;
use hos_kernel::driver::driver_manager;
use hos_kernel::driver::DeviceDriver;
use hos_kernel::driver::DeviceDriverDescriptor;
use hos_kernel::driver::DriverManager;
use hos_kernel::driver::DriverManagerInner;
use hos_kernel::framebuffer::pixel_byte_offset;
use hos_kernel::framebuffer::pixel_bytes;
use hos_kernel::framebuffer::Color;
use hos_kernel::framebuffer::PixelFormat;
use hos_kernel::framebuffer::Position;
use hos_kernel::memory::mmu::AccessPermissions;
use hos_kernel::memory::mmu::MemAttributes;
use hos_kernel::size_human_readable_ceil;
use hos_kernel::synchronization::Mutex;
use hos_kernel::synchronization::NullLock;

#[test]
fn board_identification() {
    assert_eq!(board_name(), "Raspberry Pi 3");
}

#[test]
fn board_memory_map() {
    assert_eq!(memory_map::END_INCLUSIVE, 0xFFFF_FFFF);
    assert_eq!(memory_map::MMIO_START, 0x3F00_0000);
    assert_eq!(memory_map::MMIO_GPIO_START, 0x3F20_0000);
    assert_eq!(memory_map::MMIO_PL011_UART_START, 0x3F20_1000);
    assert_eq!(memory_map::MMIO_END_INCLUSIVE, 0x4000_FFFF);
    assert_eq!(mmio_range_inclusive(), (0x3F00_0000, 0x4000_FFFF));
    assert_eq!(code_range_inclusive(0x8_0000, 0x9_0000), (0x8_0000, 0x8_FFFF));
}

#[test]
fn board_kernel_address_space() {
    let s = kernel_addr_space();
    assert_eq!(s.size(), 0x1_0000_0000);
    assert_eq!(s.size_shift(), 32);
}

#[test]
fn board_virtual_memory_layout() {
    let layout = virt_mem_layout(0x8_0000, 0x9_0000);
    assert_eq!(layout.num_special_ranges(), 2);
    assert_eq!(layout.max_virt_addr_inclusive(), 0xFFFF_FFFF);
    // The code range resolves read-only and executable.
    let (phys, attrs) = layout.virt_addr_properties(0x8_0000).unwrap();
    assert_eq!(phys, 0x8_0000);
    assert_eq!(attrs.acc_perms, AccessPermissions::ReadOnly);
    assert!(!attrs.execute_never);
    // The UART's registers resolve to device memory, never executable.
    let (phys, attrs) = layout.virt_addr_properties(0x3F20_1000).unwrap();
    assert_eq!(phys, 0x3F20_1000);
    assert_eq!(attrs.mem_attributes, MemAttributes::Device);
    assert!(attrs.execute_never);
    // Ordinary DRAM resolves to the defaults.
    let (_, attrs) = layout.virt_addr_properties(0x20_0000).unwrap();
    assert_eq!(attrs.mem_attributes, MemAttributes::CacheableDRAM);
    // The descriptors carry their diagnostic names.
    assert_eq!(layout.descriptor(0).name, "Kernel code and RO data");
    assert_eq!(layout.descriptor(1).name, "Primary Device MMIO");
}

#[test]
fn human_readable_sizes() {
    assert_eq!(size_human_readable_ceil(2 * 1024 * 1024 * 1024), (2, "GiB"));
    assert_eq!(size_human_readable_ceil(3 * 1024 * 1024 * 1024 + 1), (4, "GiB"));
    assert_eq!(size_human_readable_ceil(100), (100, "Byte"));
    assert_eq!(size_human_readable_ceil(0), (0, "Byte"));
    // Sub-gibibyte sizes scale by the gibibyte divisor, as this kernel's
    // diagnostics always have.
    assert_eq!(size_human_readable_ceil(5 * 1024 * 1024), (1, "MiB"));
    assert_eq!(size_human_readable_ceil(2048), (1, "KiB"));
}

#[test]
fn null_lock_hands_out_its_data() {
    let mut lock = NullLock::new(41i32);
    let data = lock.lock();
    *data += 1;
    assert_eq!(*lock.lock(), 42);
}

struct FakeDriver {
    name: &'static str,
}

impl DeviceDriver for FakeDriver {
    fn compatible(&self) -> &'static str {
        self.name
    }
}

fn post_init_ok() -> Result<(), &'static str> {
    Ok(())
}

#[test]
fn driver_registration_in_order() {
    let mut mgr: DriverManager<FakeDriver, fn() -> Result<(), &'static str>> = driver_manager();
    assert_eq!(mgr.num_registered(), 0);
    mgr.register_driver(DeviceDriverDescriptor::new(
        FakeDriver { name: "BCM PL011 UART" },
        Some(post_init_ok as fn() -> Result<(), &'static str>),
    ));
    mgr.register_driver(DeviceDriverDescriptor::new(FakeDriver { name: "BCM GPIO" }, None));
    assert_eq!(mgr.num_registered(), 2);
    let inner = mgr.inner();
    let first = inner.descriptor_at(0).as_ref().unwrap();
    assert_eq!(first.device_driver().compatible(), "BCM PL011 UART");
    assert!(first.post_init_callback().is_some());
    assert_eq!(first.post_init_callback().unwrap()(), Ok(()));
    let second = inner.descriptor_at(1).as_ref().unwrap();
    assert_eq!(second.device_driver().compatible(), "BCM GPIO");
    assert!(second.post_init_callback().is_none());
    assert!(inner.descriptor_at(2).is_none());
    // The default driver init succeeds.
    assert_eq!(FakeDriver { name: "x" }.init(), Ok(()));
}

#[test]
fn driver_manager_inner_capacity() {
    let inner: DriverManagerInner<FakeDriver, fn() -> Result<(), &'static str>> =
        DriverManagerInner::new();
    assert_eq!(inner.num_registered(), 0);
    for i in 0..5 {
        assert!(inner.descriptor_at(i).is_none());
    }
}

#[test]
fn null_console_swallows_everything() {
    let mut c = NullConsole;
    c.write_char('x');
    c.write_str("hello");
    c.clear_rx();
    assert_eq!(c.read_char(), ' ');
    assert_eq!(c.chars_written(), 0);
    assert_eq!(c.chars_read(), 0);
}

#[test]
fn pixel_arithmetic() {
    let p = Position { x: 3, y: 2 };
    // Offset: (y * stride + x) * bytes_per_pixel.
    assert_eq!(pixel_byte_offset(p, 640, 4), (2 * 640 + 3) * 4);
    let c = Color { red: 10, green: 200, blue: 33 };
    let (bytes, n) = pixel_bytes(c, PixelFormat::Rgb);
    assert_eq!((bytes, n), ([10, 200, 33], 3));
    let (bytes, n) = pixel_bytes(c, PixelFormat::Bgr);
    assert_eq!((bytes, n), ([33, 200, 10], 3));
    let (bytes, n) = pixel_bytes(c, PixelFormat::U8);
    assert_eq!(n, 1);
    // The grayscale transform is the per-channel third-average.
    assert_eq!(bytes[0], 10 / 3 + 200 / 3 + 33 / 3);
}
