# xue_hua_app_badge

Application icon badges for Windows, macOS, Linux, iOS and Android, as a
Verus-verified library.

- `src/` is the verified library. `api::badge` checks initialization and the
  count and names the platform step; `platform::*_impl` decide what each
  platform is asked to show (clamped badge number, `99+` label on macOS,
  launcher entry update on Linux, overlay command on Windows) and how each
  platform's answer is read back; `platform::pixels` and `platform::utf16`
  hold the integer pixel and text work behind the Windows overlay icon;
  `runtime` holds the initialization state.
- `app/` performs the platform calls (D-Bus, COM/GDI, AppKit/UIKit, JNI)
  around the library, and holds the process-wide initialization flag.
- `tests/` exercises the library on concrete values.
