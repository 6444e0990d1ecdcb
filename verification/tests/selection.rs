//! Tests of the surface-format selection policy.

use gpu_context::caps::{select_surface_format, TextureFormat};

fn fmt(code: u32, srgb: bool) -> TextureFormat {
    TextureFormat { code, srgb }
}

#[test]
fn selects_first_srgb_format() {
    let formats = vec![fmt(0, false), fmt(1, true), fmt(2, true)];
    assert_eq!(select_surface_format(&formats), fmt(1, true));
}

#[test]
fn selects_srgb_format_at_head() {
    let formats = vec![fmt(7, true), fmt(8, false)];
    assert_eq!(select_surface_format(&formats), fmt(7, true));
}

#[test]
fn falls_back_to_first_element_when_no_srgb() {
    // A capability list with no sRGB entry selects its first element.
    let formats = vec![fmt(0, false)];
    assert_eq!(select_surface_format(&formats), fmt(0, false));
}

#[test]
fn falls_back_to_first_of_several_non_srgb() {
    let formats = vec![fmt(3, false), fmt(4, false), fmt(5, false)];
    assert_eq!(select_surface_format(&formats), fmt(3, false));
}

#[test]
fn selection_ignores_non_srgb_reordering() {
    // Two lists with the same sRGB subsequence select the same format,
    // however their non-sRGB entries are ordered around it.
    let a = vec![fmt(0, false), fmt(1, true), fmt(2, false)];
    let b = vec![fmt(2, false), fmt(0, false), fmt(1, true)];
    assert_eq!(select_surface_format(&a), select_surface_format(&b));
    assert_eq!(select_surface_format(&a), fmt(1, true));
}
