# mpris-spotifyd-pifi

Now-playing display for a Raspberry Pi with an SSD1306 screen and a rotary
encoder, controlling any MPRIS player (Spotify first).

- `src/` is the verified library (Verus):
  - `config.rs`: configuration sections and their default values;
  - `display.rs`: the screen type and the truncation of text to a line;
  - `mpris_client.rs`: track information, change detection, and the choice
    of the Spotify player among the players found;
  - `rotary.rs`: decoding of clock, data and switch samples into rotation,
    click and double-click events, and the control mode;
  - `session.rs`: the decisions of the control loop (reconnecting, redrawing,
    and the action for each encoder event).
- `app/` holds the program: TOML loading, logging, D-Bus, GPIO and the loop.
- `tests/` runs the library on concrete values.
