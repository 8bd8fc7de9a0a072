# deskhud_egui

The decision logic behind the DeskHud desktop pet's windows, verified with
Verus: where the pet window docks and snaps back to, the pet's context menu
and its actions, which HUD instances and groups are drawn and in which
slots, the layout editor's selection, panels, active tree and resets, the
hexadecimal colour field, and the choice of interface font.

- `src/` is the verified library; every function there carries a contract
  and the laws of the library are public proof functions named `law_*`.
- `tests/` runs the library on concrete values.
- `app/` holds what works in floating point or through egui and winit:
  editor geometry, text measuring, and the conversions from the windowing
  system's values.
