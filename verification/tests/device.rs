use zbl::d3d::{driver_preferences, select_device, DriverKind, DriverOutcome};
use zbl::error::CaptureError;
use zbl::staging_texture::{StagingTexture, TextureUsage, CPU_ACCESS_READ};

#[test]
fn hardware_is_preferred_over_the_software_fallback() {
    let prefs = driver_preferences();
    assert_eq!(prefs, vec![DriverKind::Hardware, DriverKind::Warp]);
}

#[test]
fn first_successful_driver_wins() {
    assert_eq!(select_device(&vec![DriverOutcome::Created]), Ok(0));
    assert_eq!(
        select_device(&vec![DriverOutcome::Unsupported, DriverOutcome::Created]),
        Ok(1)
    );
}

#[test]
fn exhausting_the_preference_list_is_fatal() {
    assert_eq!(
        select_device(&vec![DriverOutcome::Unsupported, DriverOutcome::Unsupported]),
        Err(CaptureError::DeviceCreationFailed)
    );
    assert_eq!(select_device(&Vec::new()), Err(CaptureError::DeviceCreationFailed));
}

#[test]
fn a_hard_failure_is_surfaced_verbatim_and_never_retried() {
    assert_eq!(
        select_device(&vec![DriverOutcome::Failed(-2005270524), DriverOutcome::Created]),
        Err(CaptureError::BackendError(-2005270524))
    );
    assert_eq!(
        select_device(&vec![DriverOutcome::Unsupported, DriverOutcome::Failed(3)]),
        Err(CaptureError::BackendError(3))
    );
}

#[test]
fn cpu_accessible_staging_texture_uses_staging_memory() {
    let t = StagingTexture::new(800, 600, 87, true);
    assert_eq!((t.width, t.height, t.format), (800, 600, 87));
    assert_eq!(t.usage, TextureUsage::Staging);
    assert_eq!(t.cpu_access_flags, CPU_ACCESS_READ);
    assert_eq!((t.mip_levels, t.array_size), (1, 1));
    assert_eq!((t.sample_count, t.sample_quality), (1, 0));
    assert_eq!((t.bind_flags, t.misc_flags), (0, 0));
}

#[test]
fn gpu_only_staging_texture_uses_default_memory() {
    let t = StagingTexture::new(1024, 768, 87, false);
    assert_eq!(t.usage, TextureUsage::Gpu);
    assert_eq!(t.cpu_access_flags, 0);
}
