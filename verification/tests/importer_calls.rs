use ash::vk;
use dmabuf_import::cache::CACHE_TTL;
use dmabuf_import::device::{
    releases, Action, DeviceMemory, Event, Image, ImagePlan, MemoryRequest, PlaneLayout, Release,
    Resources,
    HANDLE_TYPE_DMA_BUF, IMAGE_LAYOUT_UNDEFINED, IMAGE_TILING_DRM_FORMAT_MODIFIER, IMAGE_TYPE_2D,
    IMAGE_USAGE_TRANSFER_SRC_SAMPLED, MEMORY_PROPERTIES_NONE, SAMPLE_COUNT_1,
    SHARING_MODE_EXCLUSIVE,
};
use dmabuf_import::error::ImportError;
use dmabuf_import::importer::{DmaBufImporter, SWEEP_INTERVAL_CALLS};
use dmabuf_import::params::{DmaBufPlane, Format, ImportParams};
use dmabuf_import::raw_import::{ImportStage, Progress, RawImport};

const FD: i32 = 30;
const FORMAT: Format = Format(44);

fn plane(stride: u32) -> DmaBufPlane {
    DmaBufPlane { fd: 31, offset: 64, stride, modifier: 0xbeef }
}

fn params(stride: u32) -> ImportParams {
    ImportParams::new(1920, 1080, FORMAT, &[plane(stride)])
}

fn importer() -> DmaBufImporter {
    let (importer, warning) = DmaBufImporter::new("6.1.0");
    assert_eq!(warning, None);
    importer
}

/// A device that hands out handles, and remembers which of them are alive.
struct Device {
    next: u64,
    alive: Vec<Resources>,
    imports: usize,
    sweeps: usize,
}

fn device() -> Device {
    Device { next: 1, alive: vec![], imports: 0, sweeps: 0 }
}

fn give_up(device: &mut Device, list: &[Resources]) {
    for resources in list {
        let at = device.alive.iter().position(|r| r == resources).expect("destroyed twice");
        device.alive.remove(at);
    }
}

/// Runs a whole call against a device on which nothing fails.
fn call(
    importer: &mut DmaBufImporter,
    device: &mut Device,
    inode: u64,
    stride: u32,
    now: u128,
) -> Result<(Image, bool), ImportError> {
    let mut action = importer.import_or_reuse(FD, 1920, 1080, FORMAT, &[plane(stride)]);
    loop {
        let event = match action {
            Action::ReadClock => Event::Clock(now),
            Action::Evict(list) => {
                device.sweeps += 1;
                give_up(device, &list);
                Event::Released
            }
            Action::Stat { fd } => {
                assert_eq!(fd, FD);
                Event::Stat(Ok(inode))
            }
            Action::CreateImage { .. } => {
                device.imports += 1;
                device.next += 1;
                Event::ImageCreated(Ok(Image(device.next)))
            }
            Action::QueryMemoryRequirements { .. } => Event::MemoryRequirements { size: 4096, type_bits: 6 },
            Action::QueryFdProperties { .. } => Event::FdProperties(Ok(3)),
            Action::DuplicateFd { .. } => Event::FdDuplicated(Ok(77)),
            Action::FindMemoryType { .. } => Event::MemoryType(Some(1)),
            Action::AllocateMemory { request } => {
                let memory = DeviceMemory(1000 + request.image.0);
                device.alive.push(Resources { image: request.image, memory });
                Event::MemoryAllocated(Ok(memory))
            }
            Action::BindMemory { .. } => Event::MemoryBound(Ok(())),
            Action::DestroyImage { .. } | Action::FreeAndDestroy { .. } => unreachable!(),
            Action::Finish(result) => return result,
        };
        assert!(importer.awaits(&event));
        assert!(!importer.is_idle());
        action = importer.resume(event);
    }
}

#[test]
fn constants_are_those_of_vulkan() {
    assert_eq!(IMAGE_TYPE_2D, vk::ImageType::TYPE_2D.as_raw());
    assert_eq!(SAMPLE_COUNT_1, vk::SampleCountFlags::TYPE_1.as_raw());
    assert_eq!(IMAGE_TILING_DRM_FORMAT_MODIFIER, vk::ImageTiling::DRM_FORMAT_MODIFIER_EXT.as_raw());
    assert_eq!(
        IMAGE_USAGE_TRANSFER_SRC_SAMPLED,
        (vk::ImageUsageFlags::TRANSFER_SRC | vk::ImageUsageFlags::SAMPLED).as_raw()
    );
    assert_eq!(SHARING_MODE_EXCLUSIVE, vk::SharingMode::EXCLUSIVE.as_raw());
    assert_eq!(IMAGE_LAYOUT_UNDEFINED, vk::ImageLayout::UNDEFINED.as_raw());
    assert_eq!(HANDLE_TYPE_DMA_BUF, vk::ExternalMemoryHandleTypeFlags::DMA_BUF_EXT.as_raw());
    assert_eq!(MEMORY_PROPERTIES_NONE, vk::MemoryPropertyFlags::empty().as_raw());
}

#[test]
fn a_new_importer_is_empty_and_warns_on_old_kernels() {
    let (importer, warning) = DmaBufImporter::new("5.2.0\n");
    assert!(importer.is_idle());
    assert_eq!(importer.cached_len(), 0);
    assert_eq!(importer.retired_len(), 0);
    assert!(warning.unwrap().starts_with("kernel 5.2.0 predates Linux 5.3, "));
}

#[test]
fn the_same_buffer_is_imported_once() {
    let mut importer = importer();
    let mut device = device();
    assert_eq!(call(&mut importer, &mut device, 5, 7680, 10), Ok((Image(2), true)));
    assert_eq!(call(&mut importer, &mut device, 5, 7680, 20), Ok((Image(2), false)));
    assert_eq!(call(&mut importer, &mut device, 5, 7680, 30), Ok((Image(2), false)));
    assert_eq!(device.imports, 1);
    assert_eq!(importer.cached_len(), 1);
}

#[test]
fn different_inodes_are_different_buffers() {
    let mut importer = importer();
    let mut device = device();
    assert_eq!(call(&mut importer, &mut device, 5, 7680, 10), Ok((Image(2), true)));
    assert_eq!(call(&mut importer, &mut device, 6, 7680, 20), Ok((Image(3), true)));
    assert_eq!(call(&mut importer, &mut device, 5, 7680, 30), Ok((Image(2), false)));
    assert_eq!(importer.cached_len(), 2);
}

#[test]
fn a_mismatched_entry_is_retired_not_reused() {
    let mut importer = importer();
    let mut device = device();
    assert_eq!(call(&mut importer, &mut device, 5, 7680, 10), Ok((Image(2), true)));
    assert_eq!(importer.cached_params(5), Some(params(7680)));
    assert_eq!(importer.cached_params(6), None);
    assert_eq!(call(&mut importer, &mut device, 5, 15360, 20), Ok((Image(3), true)));
    assert_eq!(importer.cached_params(5), Some(params(15360)));
    assert_eq!(importer.cached_len(), 1);
    assert_eq!(importer.retired_len(), 1);
    assert_eq!(device.alive.len(), 2);
    assert_eq!(call(&mut importer, &mut device, 5, 15360, 30), Ok((Image(3), false)));
}

#[test]
fn every_sixtieth_call_sweeps() {
    let mut importer = importer();
    let mut device = device();
    for n in 1..=3 * SWEEP_INTERVAL_CALLS {
        call(&mut importer, &mut device, 5, 7680, n as u128).unwrap();
        assert_eq!(device.sweeps as u32, n / 60);
    }
    assert_eq!(SWEEP_INTERVAL_CALLS, 60);
    assert_eq!(device.imports, 1);
}

#[test]
fn a_sweep_frees_what_went_unused_for_longer_than_the_ttl() {
    assert_eq!(CACHE_TTL, 2_000_000_000);
    let mut importer = importer();
    let mut device = device();
    // Used last at 100, 101 and 200; retired at 100.
    call(&mut importer, &mut device, 1, 7680, 50).unwrap();
    call(&mut importer, &mut device, 1, 15360, 100).unwrap();
    call(&mut importer, &mut device, 2, 7680, 101).unwrap();
    call(&mut importer, &mut device, 3, 7680, 20).unwrap();
    for _ in 0..55 {
        call(&mut importer, &mut device, 3, 7680, 200).unwrap();
    }
    assert_eq!(device.sweeps, 0);
    assert_eq!((importer.cached_len(), importer.retired_len()), (3, 1));
    // The cutoff is 101: an entry that is exactly as old as the TTL stays.
    assert_eq!(call(&mut importer, &mut device, 3, 7680, 101 + CACHE_TTL), Ok((Image(5), false)));
    assert_eq!(device.sweeps, 1);
    assert_eq!((importer.cached_len(), importer.retired_len()), (2, 0));
    let mut alive: Vec<u64> = device.alive.iter().map(|r| r.image.0).collect();
    alive.sort();
    assert_eq!(alive, vec![4, 5]);
}

#[test]
fn a_swept_buffer_is_imported_anew() {
    let mut importer = importer();
    let mut device = device();
    for n in 0..59 {
        call(&mut importer, &mut device, 5, 7680, n).unwrap();
    }
    assert_eq!(call(&mut importer, &mut device, 5, 7680, 59 + CACHE_TTL), Ok((Image(3), true)));
    assert_eq!(device.alive.len(), 1);
}

#[test]
fn draining_gives_up_everything_once() {
    let mut importer = importer();
    let mut device = device();
    call(&mut importer, &mut device, 1, 7680, 10).unwrap();
    call(&mut importer, &mut device, 1, 15360, 20).unwrap();
    call(&mut importer, &mut device, 2, 7680, 30).unwrap();
    call(&mut importer, &mut device, 3, 7680, 40).unwrap();
    let list = importer.drain();
    assert_eq!(list.len(), 4);
    // Retired imports come last.
    assert_eq!(list[3], Resources { image: Image(2), memory: DeviceMemory(1002) });
    give_up(&mut device, &list);
    assert!(device.alive.is_empty());
    assert_eq!((importer.cached_len(), importer.retired_len()), (0, 0));
    assert!(importer.drain().is_empty());
}

#[test]
fn an_unreadable_inode_fails_the_call() {
    let mut importer = importer();
    let action = importer.import_or_reuse(FD, 1920, 1080, FORMAT, &[plane(7680)]);
    assert!(matches!(action, Action::Stat { fd: FD }));
    match importer.resume(Event::Stat(Err("gone".to_string()))) {
        Action::Finish(Err(error)) => assert_eq!(error.message(), "fstat on DMA-BUF fd 30 failed: gone"),
        action => panic!("{action:?}"),
    }
    assert!(importer.is_idle());
}

#[test]
fn a_buffer_without_planes_is_refused() {
    let mut importer = importer();
    importer.import_or_reuse(FD, 1920, 1080, FORMAT, &[]);
    importer.resume(Event::Stat(Ok(5)));
    let action = importer.resume(Event::Clock(10));
    assert!(matches!(action, Action::Finish(Err(ImportError::NoPlanes))));
    assert!(importer.is_idle());
}

#[test]
fn a_buffer_without_planes_is_refused_under_a_cached_inode() {
    let mut importer = importer();
    let mut device = device();
    call(&mut importer, &mut device, 5, 7680, 10).unwrap();
    importer.import_or_reuse(FD, 1920, 1080, FORMAT, &[]);
    importer.resume(Event::Stat(Ok(5)));
    let action = importer.resume(Event::Clock(20));
    assert!(matches!(action, Action::Finish(Err(ImportError::NoPlanes))));
    assert_eq!((importer.cached_len(), importer.retired_len()), (0, 1));
}

#[test]
fn a_returned_image_is_alive_until_the_ttl_has_passed() {
    let mut importer = importer();
    let mut device = device();
    assert_eq!(call(&mut importer, &mut device, 1, 7680, 100), Ok((Image(2), true)));
    // Retired at 150, so it outlives its last use by that much.
    assert_eq!(call(&mut importer, &mut device, 1, 15360, 150), Ok((Image(3), true)));
    for _ in 0..57 {
        call(&mut importer, &mut device, 2, 7680, 200).unwrap();
    }
    call(&mut importer, &mut device, 2, 7680, 150 + CACHE_TTL).unwrap();
    assert_eq!(device.sweeps, 1);
    let alive: Vec<u64> = device.alive.iter().map(|r| r.image.0).collect();
    assert_eq!(alive, vec![2, 3, 4]);
    for _ in 0..59 {
        call(&mut importer, &mut device, 2, 7680, 151 + CACHE_TTL).unwrap();
    }
    call(&mut importer, &mut device, 2, 7680, 151 + CACHE_TTL).unwrap();
    assert_eq!(device.sweeps, 2);
    let alive: Vec<u64> = device.alive.iter().map(|r| r.image.0).collect();
    assert_eq!(alive, vec![4]);
}

#[test]
fn images_are_given_back_before_their_memory() {
    let list = [
        Resources { image: Image(1), memory: DeviceMemory(10) },
        Resources { image: Image(2), memory: DeviceMemory(20) },
    ];
    assert_eq!(
        releases(&list),
        vec![
            Release::Image(Image(1)),
            Release::Memory(DeviceMemory(10)),
            Release::Image(Image(2)),
            Release::Memory(DeviceMemory(20)),
        ]
    );
    assert_eq!(releases(&[]), vec![]);
}

#[test]
fn every_import_is_held_or_given_up() {
    let mut importer = importer();
    let mut device = device();
    for n in 0..300u64 {
        let now = n as u128 * CACHE_TTL / 40;
        call(&mut importer, &mut device, n % 11, 7680 + (n % 4) as u32, now).unwrap();
        // What is held was handed out and is alive, and nothing else is.
        assert_eq!(importer.cached_len() + importer.retired_len(), device.alive.len());
    }
    assert_eq!(device.sweeps, 5);
    assert!(device.alive.len() < device.imports);
    give_up(&mut device, &importer.drain());
    assert!(device.alive.is_empty());
}

#[test]
fn no_handle_is_held_twice() {
    let mut importer = importer();
    let mut device = device();
    for n in 0..200u64 {
        call(&mut importer, &mut device, n % 7, 7680 + (n % 3) as u32, n as u128).unwrap();
        assert_eq!(importer.cached_len() + importer.retired_len(), device.alive.len());
    }
    let list = importer.drain();
    for i in 0..list.len() {
        for j in 0..i {
            assert_ne!(list[i].image, list[j].image);
            assert_ne!(list[i].memory, list[j].memory);
        }
    }
    give_up(&mut device, &list);
    assert!(device.alive.is_empty());
}

#[test]
fn only_the_awaited_event_is_expected() {
    let mut importer = importer();
    assert!(!importer.awaits(&Event::Released));
    importer.import_or_reuse(FD, 1920, 1080, FORMAT, &[plane(7680)]);
    assert!(importer.awaits(&Event::Stat(Ok(1))));
    assert!(importer.awaits(&Event::Stat(Err(String::new()))));
    assert!(!importer.awaits(&Event::Clock(1)));
    assert!(!importer.awaits(&Event::MemoryType(None)));
}

#[test]
fn a_failed_import_leaves_no_entry() {
    let mut importer = importer();
    let mut device = device();
    call(&mut importer, &mut device, 5, 7680, 10).unwrap();
    importer.import_or_reuse(FD, 1920, 1080, FORMAT, &[plane(15360)]);
    importer.resume(Event::Stat(Ok(5)));
    assert!(matches!(importer.resume(Event::Clock(20)), Action::CreateImage { .. }));
    let action = importer.resume(Event::ImageCreated(Err(-2)));
    assert!(matches!(action, Action::Finish(Err(ImportError::ImageCreation { code: -2 }))));
    assert_eq!((importer.cached_len(), importer.retired_len()), (0, 1));
    assert_eq!(call(&mut importer, &mut device, 5, 7680, 30), Ok((Image(3), true)));
}

fn started() -> RawImport {
    let planes = [plane(7680), DmaBufPlane { fd: 99, offset: 1, stride: 2, modifier: 3 }];
    match RawImport::import_internal(1920, 1080, FORMAT, &planes) {
        Ok((import, Action::CreateImage { plan, plane_layouts })) => {
            assert_eq!(
                plan,
                ImagePlan {
                    image_type: vk::ImageType::TYPE_2D.as_raw(),
                    format: FORMAT,
                    width: 1920,
                    height: 1080,
                    depth: 1,
                    mip_levels: 1,
                    array_layers: 1,
                    samples: vk::SampleCountFlags::TYPE_1.as_raw(),
                    tiling: vk::ImageTiling::DRM_FORMAT_MODIFIER_EXT.as_raw(),
                    usage: 5,
                    sharing_mode: 0,
                    initial_layout: 0,
                    handle_types: 0x200,
                    modifier: 0xbeef,
                }
            );
            assert_eq!(
                plane_layouts,
                vec![
                    PlaneLayout {
                        offset: 64,
                        size: 0,
                        row_pitch: 7680,
                        array_pitch: 0,
                        depth_pitch: 0,
                    },
                    PlaneLayout { offset: 1, size: 0, row_pitch: 2, array_pitch: 0, depth_pitch: 0 }
                ]
            );
            import
        }
        other => panic!("{other:?}"),
    }
}

fn ahead(import: RawImport, event: Event) -> (RawImport, Action) {
    assert!(import.awaits(&event));
    match import.resume(event) {
        (import, Progress::Act(action)) => (import, action),
        other => panic!("{other:?}"),
    }
}

fn ended(import: RawImport, event: Event) -> Result<Resources, ImportError> {
    assert!(import.awaits(&event));
    match import.resume(event) {
        (RawImport { stage: ImportStage::Ended, .. }, Progress::Done(result)) => result,
        other => panic!("{other:?}"),
    }
}

fn allocating() -> RawImport {
    let (import, action) = ahead(started(), Event::ImageCreated(Ok(Image(8))));
    assert!(matches!(action, Action::QueryMemoryRequirements { image: Image(8) }));
    let (import, action) = ahead(import, Event::MemoryRequirements { size: 4096, type_bits: 0b1110 });
    assert!(matches!(action, Action::QueryFdProperties { handle_type: 0x200, fd: 31 }));
    let (import, action) = ahead(import, Event::FdProperties(Ok(0b0111)));
    assert!(matches!(action, Action::DuplicateFd { fd: 31 }));
    let (import, action) = ahead(import, Event::FdDuplicated(Ok(77)));
    assert!(matches!(action, Action::FindMemoryType { type_bits: 0b0110, properties: 0 }));
    let (import, action) = ahead(import, Event::MemoryType(Some(2)));
    match action {
        Action::AllocateMemory { request } => assert_eq!(
            request,
            MemoryRequest {
                size: 4096,
                memory_type_index: 2,
                handle_type: 0x200,
                fd: 77,
                image: Image(8),
            }
        ),
        action => panic!("{action:?}"),
    }
    import
}

#[test]
fn a_raw_import_ends_with_bound_memory() {
    let (import, action) = ahead(allocating(), Event::MemoryAllocated(Ok(DeviceMemory(9))));
    assert!(matches!(
        action,
        Action::BindMemory { image: Image(8), memory: DeviceMemory(9), offset: 0 }
    ));
    assert_eq!(
        ended(import, Event::MemoryBound(Ok(()))),
        Ok(Resources { image: Image(8), memory: DeviceMemory(9) })
    );
}

#[test]
fn memory_that_cannot_be_imported_has_the_image_destroyed() {
    let (import, action) = ahead(allocating(), Event::MemoryAllocated(Err(-1)));
    assert!(matches!(action, Action::DestroyImage { image: Image(8) }));
    assert_eq!(ended(import, Event::Released), Err(ImportError::MemoryImport { code: -1 }));
}

#[test]
fn memory_that_cannot_be_bound_is_freed_with_the_image() {
    let (import, _) = ahead(allocating(), Event::MemoryAllocated(Ok(DeviceMemory(9))));
    let (import, action) = ahead(import, Event::MemoryBound(Err(-2)));
    assert!(matches!(action, Action::FreeAndDestroy { memory: DeviceMemory(9), image: Image(8) }));
    assert_eq!(ended(import, Event::Released), Err(ImportError::MemoryBind { code: -2 }));
}

#[test]
fn earlier_failures_end_the_import() {
    assert_eq!(
        ended(started(), Event::ImageCreated(Err(-9))),
        Err(ImportError::ImageCreation { code: -9 })
    );
    let (import, _) = ahead(started(), Event::ImageCreated(Ok(Image(8))));
    let (import, _) = ahead(import, Event::MemoryRequirements { size: 1, type_bits: 1 });
    assert_eq!(
        ended(import, Event::FdProperties(Err(-3))),
        Err(ImportError::FdProperties { code: -3 })
    );
    let (import, _) = ahead(started(), Event::ImageCreated(Ok(Image(8))));
    let (import, _) = ahead(import, Event::MemoryRequirements { size: 1, type_bits: 1 });
    let (import, _) = ahead(import, Event::FdProperties(Ok(1)));
    assert_eq!(
        ended(import, Event::FdDuplicated(Err("no".to_string()))),
        Err(ImportError::DuplicateFd { reason: "no".to_string() })
    );
    let (import, _) = ahead(started(), Event::ImageCreated(Ok(Image(8))));
    let (import, _) = ahead(import, Event::MemoryRequirements { size: 1, type_bits: 1 });
    let (import, _) = ahead(import, Event::FdProperties(Ok(1)));
    let (import, _) = ahead(import, Event::FdDuplicated(Ok(77)));
    assert_eq!(ended(import, Event::MemoryType(None)), Err(ImportError::NoMemoryType));
}
