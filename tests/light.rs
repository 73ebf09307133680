use ddc_mqtt_light::actuation::{apply_state, ddc_power_value, Actuation, ApplyError};
use ddc_mqtt_light::color::{color_temperature_to_rgb, kelvin_from_mireds, ColorError, CurveSamples, Rgb};
use ddc_mqtt_light::percentage::{Percentage, PercentageError};
use ddc_mqtt_light::pixel::{pack, pack_word, ChannelLayout, PackError, SurfaceFormat};
use ddc_mqtt_light::reconcile::{
    classify_topic, initial_loop_state, offer_restore, startup_snapshot, step, Event, LoopState,
    TopicKind, Topics,
};
use ddc_mqtt_light::state::{calculate_new_state, OnOff, State, StateSet};

fn sample_state(power: OnOff, brightness: u32, color_temp: u32) -> State {
    State {
        brightness,
        color_mode: String::from("color_temp"),
        color_temp,
        linkquality: 77,
        state: power,
        update_available: true,
    }
}

fn curve_samples(kelvin: u32) -> CurveSamples {
    let temp = kelvin as f32 / 100.0;
    CurveSamples {
        warm_green: (99.4708025861 * temp.ln() - 161.1195681661) as i64,
        cool_red: (329.698727446 * (temp - 60.0).powf(-0.1332047592)) as i64,
        cool_green: (288.1221695283 * (temp - 60.0).powf(-0.0755148492)) as i64,
        mid_blue: (138.5177312231 * (temp - 10.0).ln() - 305.0447927307) as i64,
    }
}

fn samples(warm_green: i64, cool_red: i64, cool_green: i64, mid_blue: i64) -> CurveSamples {
    CurveSamples { warm_green, cool_red, cool_green, mid_blue }
}

fn layout(offset: u32, length: u32) -> ChannelLayout {
    ChannelLayout { offset, length }
}

fn rgb565(width: u32, height: u32) -> SurfaceFormat {
    SurfaceFormat {
        width,
        height,
        bits_per_pixel: 16,
        red: layout(11, 5),
        green: layout(5, 6),
        blue: layout(0, 5),
    }
}

fn xrgb8888(width: u32, height: u32) -> SurfaceFormat {
    SurfaceFormat {
        width,
        height,
        bits_per_pixel: 32,
        red: layout(16, 8),
        green: layout(8, 8),
        blue: layout(0, 8),
    }
}

#[test]
fn merge_overwrites_power_and_keeps_absent_fields() {
    let prev = sample_state(OnOff::On, 120, 300);
    let cmd = StateSet { state: OnOff::Off, brightness: None, color_temp: None };
    let next = calculate_new_state(&cmd, &prev);
    assert_eq!(next.state, OnOff::Off);
    assert_eq!(next.brightness, 120);
    assert_eq!(next.color_temp, 300);
    assert_eq!(next.color_mode, "color_temp");
    assert_eq!(next.linkquality, 77);
    assert!(next.update_available);
}

#[test]
fn merge_takes_present_fields() {
    let prev = sample_state(OnOff::Off, 120, 300);
    let cmd = StateSet { state: OnOff::On, brightness: Some(10), color_temp: Some(200) };
    let next = calculate_new_state(&cmd, &prev);
    assert_eq!(next.state, OnOff::On);
    assert_eq!(next.brightness, 10);
    assert_eq!(next.color_temp, 200);
    assert_eq!(next.linkquality, 77);
    assert!(next.update_available);
}

#[test]
fn gate_takes_first_restore_only() {
    let first = sample_state(OnOff::On, 50, 250);
    let second = sample_state(OnOff::Off, 0, 400);
    let ls = offer_restore(initial_loop_state(), first.clone());
    assert!(ls.loaded_state);
    assert!(ls.state == first);
    let ls = offer_restore(ls, second.clone());
    assert!(ls.loaded_state);
    assert!(ls.state == first);
    let ls = offer_restore(ls, second);
    assert!(ls.state == first);
}

#[test]
fn gate_in_loop_publishes_only_first_restore() {
    let first = sample_state(OnOff::On, 50, 250);
    let (ls, changed) = step(initial_loop_state(), Event::Restore(first.clone()));
    assert!(changed);
    let (ls, changed) = step(ls, Event::Restore(sample_state(OnOff::Off, 3, 400)));
    assert!(!changed);
    assert!(ls.state == first);
}

#[test]
fn identical_command_twice_publishes_once() {
    let cmd = StateSet { state: OnOff::On, brightness: Some(100), color_temp: Some(300) };
    let (ls, first) = step(initial_loop_state(), Event::Command(cmd));
    let (ls, second) = step(ls, Event::Command(cmd));
    assert!(first);
    assert!(!second);
    assert_eq!(ls.state.brightness, 100);
}

#[test]
fn get_and_transport_events_change_nothing() {
    let start = LoopState { state: sample_state(OnOff::On, 5, 200), loaded_state: true };
    let (ls, changed) = step(start.clone(), Event::Get);
    assert!(!changed);
    assert!(ls.state == start.state);
    let (ls, changed) = step(ls, Event::Transport);
    assert!(!changed);
    assert!(ls.state == start.state);
    assert!(ls.loaded_state);
}

#[test]
fn initial_state_is_off_with_sentinel_brightness() {
    let ls = initial_loop_state();
    assert!(!ls.loaded_state);
    assert_eq!(ls.state.state, OnOff::Off);
    assert_eq!(ls.state.brightness, u32::MAX);
    let snap = startup_snapshot();
    assert_eq!(snap.state, OnOff::On);
    assert_eq!(snap.brightness, 0);
    assert_eq!(snap.color_temp, 155);
}

#[test]
fn warm_boundary_uses_warm_red_and_green() {
    let rgb = color_temperature_to_rgb(6600, &samples(200, 10, 20, 30));
    assert_eq!(rgb, Rgb { red: 255, green: 200, blue: 255 });
}

#[test]
fn just_above_boundary_uses_cool_curves() {
    let rgb = color_temperature_to_rgb(6601, &samples(200, 254, 240, 30));
    assert_eq!(rgb, Rgb { red: 254, green: 240, blue: 255 });
}

#[test]
fn blue_is_off_at_and_below_1900() {
    assert_eq!(color_temperature_to_rgb(1900, &samples(1, 2, 3, 90)).blue, 0);
    assert_eq!(color_temperature_to_rgb(1000, &samples(1, 2, 3, 90)).blue, 0);
    assert_eq!(color_temperature_to_rgb(1901, &samples(1, 2, 3, 90)).blue, 90);
}

#[test]
fn curve_values_are_clamped() {
    let rgb = color_temperature_to_rgb(3000, &samples(-40, 0, 0, 999));
    assert_eq!(rgb, Rgb { red: 255, green: 0, blue: 255 });
    let rgb = color_temperature_to_rgb(20000, &samples(0, 400, -3, 0));
    assert_eq!(rgb, Rgb { red: 255, green: 0, blue: 255 });
}

#[test]
fn fit_at_4000_kelvin() {
    let rgb = color_temperature_to_rgb(4000, &curve_samples(4000));
    assert_eq!(rgb, Rgb { red: 255, green: 205, blue: 166 });
}

#[test]
fn zero_mireds_is_a_domain_error() {
    assert_eq!(kelvin_from_mireds(0), Err(ColorError::ZeroMireds));
    assert_eq!(kelvin_from_mireds(250), Ok(4000));
    assert_eq!(kelvin_from_mireds(155), Ok(6451));
    assert_eq!(kelvin_from_mireds(1_000_001), Ok(0));
}

#[test]
fn rgb565_white_packs_to_all_ones() {
    let white = Rgb { red: 255, green: 255, blue: 255 };
    assert_eq!(pack_word(&white, &rgb565(2, 2)), 0xFFFF);
    assert_eq!(pack(&white, &rgb565(2, 2)), Ok(vec![0xFF; 8]));
}

#[test]
fn rgb565_splits_low_byte_first() {
    let c = Rgb { red: 0xF8, green: 0x00, blue: 0xFF };
    assert_eq!(pack_word(&c, &rgb565(1, 1)), 0xF81F);
    assert_eq!(pack(&c, &rgb565(1, 1)), Ok(vec![0x1F, 0xF8]));
    let g = Rgb { red: 0, green: 0xFF, blue: 0 };
    assert_eq!(pack_word(&g, &rgb565(1, 1)), 0x07E0);
}

#[test]
fn xrgb8888_packs_little_endian() {
    let c = Rgb { red: 0x12, green: 0x34, blue: 0x56 };
    assert_eq!(pack_word(&c, &xrgb8888(3, 1)), 0x0012_3456);
    assert_eq!(
        pack(&c, &xrgb8888(3, 1)),
        Ok(vec![0x56, 0x34, 0x12, 0x00, 0x56, 0x34, 0x12, 0x00, 0x56, 0x34, 0x12, 0x00])
    );
}

#[test]
fn empty_surface_packs_to_nothing() {
    let c = Rgb { red: 1, green: 2, blue: 3 };
    assert_eq!(pack(&c, &xrgb8888(0, 5)), Ok(vec![]));
}

#[test]
fn other_depths_are_refused() {
    let mut f = xrgb8888(2, 2);
    f.bits_per_pixel = 24;
    let c = Rgb { red: 1, green: 2, blue: 3 };
    assert_eq!(pack(&c, &f), Err(PackError::UnsupportedBitsPerPixel(24)));
}

#[test]
fn percentage_bounds() {
    assert_eq!(Percentage::new(100).map(|p| p.value()), Ok(100));
    assert_eq!(Percentage::new(0).map(|p| p.value()), Ok(0));
    assert_eq!(Percentage::new(101), Err(PercentageError::OutOfRange(101)));
}

#[test]
fn percentage_scaling_and_backlight() {
    assert_eq!(Percentage::scaled(254, 254).map(|p| p.value()), Some(100));
    assert_eq!(Percentage::scaled(127, 254).map(|p| p.value()), Some(50));
    assert_eq!(Percentage::scaled(255, 254), None);
    let p = Percentage::new(42).unwrap();
    assert_eq!(p.backlight_level(1000), 420);
    assert_eq!(p.backlight_level(7), 2);
    assert_eq!(Percentage::zero().value(), 0);
}

#[test]
fn off_state_dims_then_powers_off() {
    let plan = apply_state(&sample_state(OnOff::Off, 200, 300));
    assert_eq!(plan.steps, vec![Actuation::Brightness(Percentage::zero()), Actuation::Power(OnOff::Off)]);
    assert_eq!(plan.failure, None);
}

#[test]
fn on_state_with_bad_values_stops_early() {
    let plan = apply_state(&sample_state(OnOff::On, 255, 300));
    assert_eq!(plan.steps, vec![Actuation::Power(OnOff::On)]);
    assert_eq!(plan.failure, Some(ApplyError::BrightnessOutOfRange(255)));
    let plan = apply_state(&sample_state(OnOff::On, 127, 0));
    assert_eq!(
        plan.steps,
        vec![Actuation::Power(OnOff::On), Actuation::Brightness(Percentage::new(50).unwrap())]
    );
    assert_eq!(plan.failure, Some(ApplyError::Color(ColorError::ZeroMireds)));
}

#[test]
fn set_message_turns_light_on_end_to_end() {
    let prev = LoopState { state: sample_state(OnOff::Off, 30, 400), loaded_state: true };
    let cmd = StateSet { state: OnOff::On, brightness: Some(254), color_temp: Some(250) };
    let (ls, changed) = step(prev, Event::Command(cmd));
    assert!(changed);
    let plan = apply_state(&ls.state);
    assert_eq!(
        plan.steps,
        vec![
            Actuation::Power(OnOff::On),
            Actuation::Brightness(Percentage::new(100).unwrap()),
            Actuation::Paint(4000),
        ]
    );
    assert_eq!(plan.failure, None);
    let rgb = color_temperature_to_rgb(4000, &curve_samples(4000));
    assert_eq!(rgb, Rgb { red: 255, green: 205, blue: 166 });
    assert_eq!(ddc_power_value(OnOff::On), 1);
    assert_eq!(ddc_power_value(OnOff::Off), 5);
}

#[test]
fn restore_then_identical_command_applies_once() {
    let retained = sample_state(OnOff::On, 200, 300);
    let (ls, restored) = step(initial_loop_state(), Event::Restore(retained));
    assert!(restored);
    let cmd = StateSet { state: OnOff::On, brightness: Some(200), color_temp: Some(300) };
    let (ls, changed) = step(ls, Event::Command(cmd));
    assert!(!changed);
    assert!(ls.loaded_state);
}

#[test]
fn topics_are_classified() {
    let topics = Topics {
        get: String::from("test/0x00000000000000ab"),
        set: String::from("test/0x00000000000000ab/set"),
        state: String::from("test/0x00000000000000ab/state"),
    };
    assert_eq!(classify_topic(&topics, &String::from("test/0x00000000000000ab")), Some(TopicKind::Get));
    assert_eq!(classify_topic(&topics, &String::from("test/0x00000000000000ab/set")), Some(TopicKind::Command));
    assert_eq!(classify_topic(&topics, &String::from("test/0x00000000000000ab/state")), Some(TopicKind::Retained));
    assert_eq!(classify_topic(&topics, &String::from("test/other")), None);
}
