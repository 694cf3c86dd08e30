use gpu_widgets::widgets::node_widget::fill_background;
use gpu_widgets::widgets::noise::{noise_pixel, Noise};
use gpu_widgets::widgets::pulsing_red::fill_pulse_frame;
use gpu_widgets::widgets::vertical_gradient::fill_gradient_rows;

#[test]
fn pulse_frame_fills_every_pixel_and_keeps_the_tail() {
    let mut p = vec![7u8; 2 * 2 * 4 + 3];
    fill_pulse_frame(2, 2, &mut p, 200);
    for k in 0..4 {
        assert_eq!(&p[k * 4..k * 4 + 4], &[200, 30, 30, 255]);
    }
    assert_eq!(&p[16..], &[7, 7, 7]);
}

#[test]
fn pulse_frame_of_zero_width_draws_nothing() {
    let mut p = vec![1u8, 2, 3, 4];
    fill_pulse_frame(0, 5, &mut p, 9);
    assert_eq!(p, vec![1, 2, 3, 4]);
}

#[test]
fn gradient_rows_take_their_own_color() {
    let mut p = vec![0u8; 3 * 2 * 4 + 4];
    let rows = vec![[10u8, 20, 30, 40], [50u8, 60, 70, 80]];
    fill_gradient_rows(3, 2, &mut p, &rows);
    for x in 0..3 {
        assert_eq!(&p[x * 4..x * 4 + 4], &[10, 20, 30, 40]);
        assert_eq!(&p[12 + x * 4..12 + x * 4 + 4], &[50, 60, 70, 80]);
    }
    assert_eq!(&p[24..], &[0, 0, 0, 0]);
}

#[test]
fn background_fills_whole_pixels_only() {
    let mut p = vec![9u8; 10];
    fill_background(&mut p, [1, 2, 3, 4]);
    assert_eq!(p, vec![1, 2, 3, 4, 1, 2, 3, 4, 9, 9]);
}

#[test]
fn noise_pixel_takes_the_low_byte() {
    assert_eq!(noise_pixel(0x1234_56ab), [0xab, 0xab, 0xab, 255]);
    assert_eq!(noise_pixel(0), [0, 0, 0, 255]);
    assert_eq!(noise_pixel(u32::MAX), [255, 255, 255, 255]);
}

#[test]
fn noise_frame_is_opaque_gray() {
    let mut noise = Noise::new(42);
    let mut p = vec![5u8; 3 * 2 * 4 + 2];
    noise.draw_into(3, 2, &mut p);
    for k in 0..6 {
        let px = &p[k * 4..k * 4 + 4];
        assert_eq!(px[0], px[1]);
        assert_eq!(px[0], px[2]);
        assert_eq!(px[3], 255);
    }
    assert_eq!(&p[24..], &[5, 5]);
}

#[test]
fn noise_is_reproducible_from_its_seed() {
    let mut a = Noise::new(7);
    let mut b = Noise::new(7);
    let mut pa = vec![0u8; 16 * 16 * 4];
    let mut pb = vec![0u8; 16 * 16 * 4];
    a.draw_into(16, 16, &mut pa);
    b.draw_into(16, 16, &mut pb);
    assert_eq!(pa, pb);
    // consecutive frames come from fresh generator words
    let mut pa2 = vec![0u8; 16 * 16 * 4];
    a.draw_into(16, 16, &mut pa2);
    assert_ne!(pa, pa2);
}

#[test]
fn widget_names() {
    assert_eq!(Noise::new(1).name(), "Noise");
    assert_eq!(gpu_widgets::widget::BlueWidget.name(), "Blue");
}
