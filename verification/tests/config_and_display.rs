use mpris_spotifyd_pifi::config::{
    default_clk_pin, default_dc_pin, default_dt_pin, default_reconnect_interval,
    default_rst_pin, default_spi_device, default_sw_pin, default_update_interval, Config,
    DEFAULT_VOLUME_STEP_BITS,
};
use mpris_spotifyd_pifi::display::{Display, LINE_WIDTH};

#[test]
fn default_functions_give_documented_values() {
    assert_eq!(default_spi_device(), "/dev/spidev0.0");
    assert_eq!(default_dc_pin(), 24);
    assert_eq!(default_rst_pin(), 25);
    assert_eq!(default_update_interval(), 500);
    assert_eq!(default_clk_pin(), 17);
    assert_eq!(default_dt_pin(), 27);
    assert_eq!(default_sw_pin(), 22);
    assert_eq!(default_reconnect_interval(), 5000);
}

#[test]
fn default_config_matches_readme() {
    let c = Config::default();
    assert_eq!(c.display.spi_device, "/dev/spidev0.0");
    assert_eq!(c.display.dc_pin, 24);
    assert_eq!(c.display.rst_pin, 25);
    assert_eq!(c.display.update_interval_ms, 500);
    assert_eq!(c.rotary.clk_pin, 17);
    assert_eq!(c.rotary.dt_pin, 27);
    assert_eq!(c.rotary.sw_pin, 22);
    assert_eq!(f64::from_bits(c.rotary.volume_step_bits), 0.05);
    assert_eq!(c.mpris.reconnect_interval_ms, 5000);
}

#[test]
fn default_volume_step_bits_are_five_hundredths() {
    assert_eq!(DEFAULT_VOLUME_STEP_BITS, 0.05f64.to_bits());
}

#[test]
fn truncate_keeps_text_that_fits() {
    assert_eq!(Display::truncate("Bohemian Rhapsody", LINE_WIDTH), "Bohemian Rhapsody");
    assert_eq!(Display::truncate("", LINE_WIDTH), "");
    let exact = "abcdefghijklmnopqrstu";
    assert_eq!(exact.chars().count(), 21);
    assert_eq!(Display::truncate(exact, LINE_WIDTH), exact);
}

#[test]
fn truncate_cuts_long_text_with_ellipsis() {
    let long = "abcdefghijklmnopqrstuv";
    assert_eq!(Display::truncate(long, LINE_WIDTH), "abcdefghijklmnopqr...");
    assert_eq!(Display::truncate(long, LINE_WIDTH).chars().count(), 21);
    assert_eq!(Display::truncate("abcd", 3), "...");
    assert_eq!(Display::truncate("abcdef", 5), "ab...");
}

#[test]
fn truncate_counts_characters_not_bytes() {
    let s = "Zażółć gęślą jaźń i coś jeszcze";
    let t = Display::truncate(s, LINE_WIDTH);
    assert_eq!(t.chars().count(), 21);
    assert_eq!(t, "Zażółć gęślą jaźń ...");
    let fits = "Mötley Crüe";
    assert_eq!(Display::truncate(fits, 11), fits);
}

#[test]
fn truncate_twice_is_truncate_once() {
    let long = "A very long song title that does not fit";
    let once = Display::truncate(long, LINE_WIDTH);
    assert_eq!(Display::truncate(&once, LINE_WIDTH), once);
}

#[test]
fn display_stub_is_not_enabled() {
    let _d = Display::new("/dev/spidev0.0", 24, 25);
}
