# esp32s3_cam_qr

Decision logic of a door-lock controller built on the Xiao ESP32-S3 Sense:
a 9-button keypad on an MCP23017 port expander and the camera both feed
7-digit unlock codes; a valid code is sent over BLE to the lock board.

- `src/` — the verified library (Verus):
  - `keypad.rs`: expander word, new-press detection, key digits, and the
    keypad entry state machine with its laws;
  - `code.rs`: what counts as an unlock code;
  - `frame.rs`: frame counter for periodic QR detection, frame copy and
    luma extraction;
  - `scan.rs`: QR decoding through rxing and judging the decoded text;
  - `unlock.rs`: recognising the lock board in BLE advertisements, the
    progress bar and the wait for the BLE task's answer.
- `app/` — the firmware around it: hardware setup, display drawing, the
  BLE task (esp32-nimble) and the main loop.
- `tests/` — tests of the library, including decoding of rendered QR codes.
