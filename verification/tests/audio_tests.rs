use voice_translator::audio::AudioConfig;

#[test]
fn audio_config_defaults() {
    let c = AudioConfig::default();
    assert_eq!((c.sample_rate, c.channels, c.buffer_size), (16000, 1, 4096));
}
