use aiwinamp::signal::{
    band_span, captures_channel, equalizer_window_len, next_channel, push_windowed,
    spectrum_step, spectrum_window_len, SpectrumStep, SPECTRUM_BANDS,
};

#[test]
fn window_keeps_the_newest_samples() {
    let mut buf: Vec<f32> = Vec::new();
    for i in 0..10 {
        push_windowed(&mut buf, i as f32, 4);
        assert!(buf.len() <= 4);
    }
    assert_eq!(buf, vec![6.0, 7.0, 8.0, 9.0]);
}

#[test]
fn window_lengths_follow_sample_rate() {
    assert_eq!(spectrum_window_len(44_100), 2205);
    assert_eq!(spectrum_window_len(8_000), 1024);
    assert_eq!(equalizer_window_len(48_000), 480);
    assert_eq!(equalizer_window_len(22_050), 256);
}

#[test]
fn spectrum_schedule() {
    assert_eq!(spectrum_step(64, 128), SpectrumStep::Refresh);
    assert_eq!(spectrum_step(64, 127), SpectrumStep::Decay);
    assert_eq!(spectrum_step(96, 500), SpectrumStep::Decay);
    assert_eq!(spectrum_step(65, 500), SpectrumStep::Hold);
}

#[test]
fn bands_split_the_buffer_evenly() {
    assert_eq!(band_span(0, 2205, SPECTRUM_BANDS), Some((0, 137)));
    assert_eq!(band_span(15, 2205, SPECTRUM_BANDS), Some((2055, 2192)));
    assert_eq!(band_span(3, 10, SPECTRUM_BANDS), None);
}

#[test]
fn channel_counter_cycles() {
    assert_eq!(next_channel(0, 2), 1);
    assert_eq!(next_channel(1, 2), 0);
    assert_eq!(next_channel(0, 1), 0);
    assert!(captures_channel(0, 2));
    assert!(!captures_channel(1, 2));
    assert!(captures_channel(5, 1));
}
