use panel_lamp::channel::HueChannel;
use panel_lamp::color::lamp_color;
use panel_lamp::color::Rgb;
use panel_lamp::hue_source::HueSource;
use panel_lamp::hue_source::SourceWait;
use panel_lamp::lamp::poll;
use panel_lamp::lamp::LampStep;

#[test]
fn lamp_waits_on_an_empty_channel() {
    let mut channel = HueChannel::new();
    assert_eq!(poll(&mut channel), LampStep::AwaitHue);
    assert_eq!(poll(&mut channel), LampStep::AwaitHue);
    assert_eq!(channel.len(), 0);
}

#[test]
fn lamp_writes_the_color_of_the_received_hue() {
    let mut channel = HueChannel::new();
    assert_eq!(channel.try_send(128), Ok(()));
    assert_eq!(channel.try_send(200), Ok(()));
    assert_eq!(poll(&mut channel), LampStep::Write(Rgb { r: 0, g: 10, b: 10 }));
    assert_eq!(channel.len(), 1);
    assert_eq!(poll(&mut channel), LampStep::Write(Rgb { r: 4, g: 0, b: 10 }));
    assert_eq!(poll(&mut channel), LampStep::AwaitHue);
}

#[test]
fn alternating_tasks_reach_hue_128_in_order() {
    let mut source = HueSource::new();
    let mut channel = HueChannel::new();
    let mut written: Vec<Rgb> = Vec::new();
    for _ in 0..300 {
        assert_eq!(source.poll(&mut channel), SourceWait::Period(20));
        match poll(&mut channel) {
            LampStep::Write(color) => written.push(color),
            LampStep::AwaitHue => panic!("a hue was sent"),
        }
    }
    assert_eq!(written.len(), 300);
    assert_eq!(written[0], lamp_color(0));
    assert_eq!(written[128], Rgb { r: 0, g: 10, b: 10 });
    assert_eq!(written[128], lamp_color(128));
    for (i, color) in written.iter().enumerate() {
        assert_eq!(*color, lamp_color((i % 256) as u8));
    }
}

#[test]
fn source_running_ahead_is_held_at_sixty_four_values() {
    let mut source = HueSource::new();
    let mut channel = HueChannel::new();
    let mut sent = 0;
    for _ in 0..200 {
        if source.poll(&mut channel) == SourceWait::Period(20) {
            sent += 1;
        }
    }
    assert_eq!(sent, 64);
    assert_eq!(channel.len(), 64);
    let mut written: Vec<Rgb> = Vec::new();
    while let LampStep::Write(color) = poll(&mut channel) {
        written.push(color);
    }
    assert_eq!(written.len(), 64);
    for (i, color) in written.iter().enumerate() {
        assert_eq!(*color, lamp_color(i as u8));
    }
    assert_eq!(source.poll(&mut channel), SourceWait::Period(20));
    assert_eq!(poll(&mut channel), LampStep::Write(lamp_color(64)));
}

#[test]
fn any_interleaving_takes_the_hues_in_order() {
    let mut source = HueSource::new();
    let mut channel = HueChannel::new();
    let mut taken: Vec<u8> = Vec::new();
    let mut seed: u32 = 77;
    for _ in 0..20_000 {
        seed = seed.wrapping_mul(1_664_525).wrapping_add(1_013_904_223);
        if (seed >> 24) % 5 < 3 {
            source.poll(&mut channel);
        } else if let Ok(hue) = channel.try_receive() {
            taken.push(hue);
        }
    }
    assert!(taken.len() > 256);
    for (n, hue) in taken.iter().enumerate() {
        assert_eq!(usize::from(*hue), n % 256);
    }
}

#[test]
fn any_interleaving_writes_the_hues_in_order() {
    let mut source = HueSource::new();
    let mut channel = HueChannel::new();
    let mut written: Vec<Rgb> = Vec::new();
    let mut seed: u32 = 2024;
    for _ in 0..20_000 {
        seed = seed.wrapping_mul(1_664_525).wrapping_add(1_013_904_223);
        if (seed >> 24) % 5 < 3 {
            source.poll(&mut channel);
        } else if let LampStep::Write(color) = poll(&mut channel) {
            written.push(color);
        }
        assert!(channel.len() <= 64);
    }
    assert!(written.len() > 256);
    for (i, color) in written.iter().enumerate() {
        assert_eq!(*color, lamp_color((i % 256) as u8));
    }
}
