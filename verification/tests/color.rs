use sierpinski::color::{Color, CHANNEL_END};

#[test]
fn style_is_written_as_rgb_with_decimal_channels() {
    assert_eq!(Color { r: 0, g: 0, b: 0 }.to_style(), "rgb(0, 0, 0)");
    assert_eq!(Color { r: 255, g: 255, b: 255 }.to_style(), "rgb(255, 255, 255)");
    assert_eq!(Color { r: 1, g: 22, b: 254 }.to_style(), "rgb(1, 22, 254)");
    assert_eq!(Color { r: 9, g: 10, b: 99 }.to_style(), "rgb(9, 10, 99)");
    assert_eq!(Color { r: 100, g: 101, b: 110 }.to_style(), "rgb(100, 101, 110)");
    assert_eq!(Color { r: 200, g: 7, b: 70 }.to_style(), "rgb(200, 7, 70)");
}

#[test]
fn style_of_every_channel_value_is_its_decimal() {
    for n in 0..=255u8 {
        let text = Color { r: n, g: 0, b: n }.to_style();
        assert_eq!(text, format!("rgb({}, {}, {})", n, 0, n));
    }
}

#[test]
fn sampled_channels_stay_below_the_end() {
    let mut rng = rand::thread_rng();
    for _ in 0..20000 {
        let c = Color::random(&mut rng);
        assert!(c.r < CHANNEL_END);
        assert!(c.g < CHANNEL_END);
        assert!(c.b < CHANNEL_END);
    }
}

#[test]
fn sampled_channels_cover_the_range() {
    let mut rng = rand::thread_rng();
    let mut seen = [[false; 256]; 3];
    let mut low = [0u32; 3];
    let rounds = 60000u32;
    for _ in 0..rounds {
        let c = Color::random(&mut rng);
        for (k, v) in [c.r, c.g, c.b].into_iter().enumerate() {
            seen[k][v as usize] = true;
            if v < 128 {
                low[k] += 1;
            }
        }
    }
    for k in 0..3 {
        for v in 0..255usize {
            assert!(seen[k][v], "channel {} never took the value {}", k, v);
        }
        assert!(!seen[k][255]);
        // 128 of the 255 values lie below 128.
        assert!(low[k] > rounds * 45 / 100 && low[k] < rounds * 55 / 100);
    }
}

#[test]
fn sampled_channels_differ_from_each_other() {
    let mut rng = rand::thread_rng();
    let mut equal = 0;
    for _ in 0..2000 {
        let c = Color::random(&mut rng);
        if c.r == c.g && c.g == c.b {
            equal += 1;
        }
    }
    assert!(equal < 20);
}

#[test]
fn samples_become_red_green_and_blue_in_this_order() {
    assert_eq!(Color::from_samples(1, 2, 3), Color { r: 1, g: 2, b: 3 });
    assert_eq!(Color::from_samples(254, 0, 17), Color { r: 254, g: 0, b: 17 });
    assert_eq!(Color::from_samples(255, 255, 0).to_style(), "rgb(255, 255, 0)");
}
