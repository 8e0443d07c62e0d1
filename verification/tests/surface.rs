use storyboard::surface::{Observable, ScreenSize, SurfaceConfiguration};
use wgpu::PresentMode;

#[test]
fn new_observable_counts_as_changed_once() {
    let mut value = Observable::new(5u32);
    assert!(Observable::invalidate(&mut value));
    assert!(!Observable::invalidate(&mut value));
    assert_eq!(*value.get(), 5);
}

#[test]
fn screen_area() {
    assert!(ScreenSize { width: 800, height: 600 }.has_area());
    assert!(!ScreenSize { width: 0, height: 600 }.has_area());
    assert!(!ScreenSize { width: 800, height: 0 }.has_area());
}

#[test]
fn configurations_compare_by_mode_and_size() {
    let a = SurfaceConfiguration {
        present_mode: PresentMode::Fifo,
        screen: ScreenSize { width: 800, height: 600 },
    };
    let same = SurfaceConfiguration {
        present_mode: PresentMode::Fifo,
        screen: ScreenSize { width: 800, height: 600 },
    };
    let other_mode = SurfaceConfiguration {
        present_mode: PresentMode::Immediate,
        screen: ScreenSize { width: 800, height: 600 },
    };
    let other_size = SurfaceConfiguration {
        present_mode: PresentMode::Fifo,
        screen: ScreenSize { width: 801, height: 600 },
    };
    assert!(a == same);
    assert!(a != other_mode);
    assert!(a != other_size);
}
