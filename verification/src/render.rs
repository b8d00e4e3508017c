//! What a renderer derives from a toast and the options before it paints:
//! class names, the semantic role and the animation styles.

use crate::types::{OptionsView, Toast, ToastKind, ToastOptions, ToastView};
use vstd::prelude::*;
use vstd::string::StringExecFns;

verus! {

/// Length of the fade-in and of the fade-out, in milliseconds.
pub const FADE_MS: u64 = 300;

/// The character of a decimal digit.
pub open spec fn digit(d: nat) -> char {
    if d == 0 {
        '0'
    } else if d == 1 {
        '1'
    } else if d == 2 {
        '2'
    } else if d == 3 {
        '3'
    } else if d == 4 {
        '4'
    } else if d == 5 {
        '5'
    } else if d == 6 {
        '6'
    } else if d == 7 {
        '7'
    } else if d == 8 {
        '8'
    } else {
        '9'
    }
}

/// A number in decimal, without leading zeros.
pub open spec fn decimal(n: nat) -> Seq<char>
    decreases n,
{
    if n < 10 {
        seq![digit(n)]
    } else {
        decimal(n / 10).push(digit(n % 10))
    }
}

/// When the fade-out starts: one fade length before the toast expires, or
/// at once if it lives no longer than that.
pub open spec fn fade_out_delay_spec(time_out: nat) -> nat {
    if time_out >= FADE_MS {
        (time_out - FADE_MS) as nat
    } else {
        0
    }
}

/// The inline style of a toast: no animation for one that never expires,
/// else a fade-in followed by a fade-out that ends when the toast expires.
pub open spec fn toast_style_spec(time_out: nat) -> Seq<char> {
    if time_out > 0 {
        "animation: toast-in "@ + decimal(FADE_MS as nat) + "ms ease-out, toast-out "@ + decimal(
            FADE_MS as nat,
        ) + "ms ease-in "@ + decimal(fade_out_delay_spec(time_out)) + "ms forwards;"@
    } else {
        Seq::empty()
    }
}

/// The inline style of the progress bar: it runs down over the whole lifetime.
pub open spec fn progress_style_spec(time_out: nat) -> Seq<char> {
    "animation: toast-progress linear "@ + decimal(time_out) + "ms;"@
}

/// The layout modifier class: set for right-to-left, empty otherwise.
pub open spec fn layout_class_spec(options: OptionsView) -> Seq<char> {
    if options.rtl {
        "toast-rtl"@
    } else {
        ""@
    }
}

/// The class attribute of a toast: the base class, a space, the severity class.
pub open spec fn toast_class_spec(options: OptionsView, kind: ToastKind) -> Seq<char> {
    options.toast_class + " "@ + kind.class_name_spec()
}

/// The class attribute of the container: the position class, a space, the
/// layout modifier.
pub open spec fn container_class_spec(options: OptionsView) -> Seq<char> {
    options.position_class + " "@ + layout_class_spec(options)
}

fn digit_str(d: u64) -> (s: &'static str)
    requires
        d < 10,
    ensures
        s@ == seq![digit(d as nat)],
{
    proof {
        reveal_strlit("0");
        reveal_strlit("1");
        reveal_strlit("2");
        reveal_strlit("3");
        reveal_strlit("4");
        reveal_strlit("5");
        reveal_strlit("6");
        reveal_strlit("7");
        reveal_strlit("8");
        reveal_strlit("9");
    }
    if d == 0 {
        "0"
    } else if d == 1 {
        "1"
    } else if d == 2 {
        "2"
    } else if d == 3 {
        "3"
    } else if d == 4 {
        "4"
    } else if d == 5 {
        "5"
    } else if d == 6 {
        "6"
    } else if d == 7 {
        "7"
    } else if d == 8 {
        "8"
    } else {
        "9"
    }
}

/// Appends `n` in decimal to `out`.
pub fn push_decimal(out: &mut String, n: u64)
    ensures
        final(out)@ == old(out)@ + decimal(n as nat),
    decreases n,
{
    if n >= 10 {
        push_decimal(out, n / 10);
    }
    out.append(digit_str(n % 10));
}

/// The delay before the fade-out of a toast that lives `time_out` milliseconds.
pub fn fade_out_delay(time_out: u64) -> (delay: u64)
    ensures
        delay as nat == fade_out_delay_spec(time_out as nat),
{
    if time_out >= FADE_MS {
        time_out - FADE_MS
    } else {
        0
    }
}

/// The inline style of a toast that lives `time_out` milliseconds.
pub fn toast_style(time_out: u64) -> (style: String)
    ensures
        style@ == toast_style_spec(time_out as nat),
{
    let mut style = String::new();
    if time_out > 0 {
        style.append("animation: toast-in ");
        push_decimal(&mut style, FADE_MS);
        style.append("ms ease-out, toast-out ");
        push_decimal(&mut style, FADE_MS);
        style.append("ms ease-in ");
        push_decimal(&mut style, fade_out_delay(time_out));
        style.append("ms forwards;");
    }
    style
}

/// The inline style of the progress bar of such a toast.
pub fn progress_style(time_out: u64) -> (style: String)
    ensures
        style@ == progress_style_spec(time_out as nat),
{
    let mut style = String::new();
    style.append("animation: toast-progress linear ");
    push_decimal(&mut style, time_out);
    style.append("ms;");
    style
}

/// The layout modifier class that the options ask for.
pub fn layout_class(options: &ToastOptions) -> (class: &'static str)
    ensures
        class@ == layout_class_spec(options@),
{
    if options.rtl {
        "toast-rtl"
    } else {
        ""
    }
}

/// What the renderer puts on one toast.
pub struct ToastMarkup {
    pub class_name: String,
    pub role: &'static str,
    pub style: String,
    /// Whether a close control is drawn.
    pub close_button: bool,
    /// The style of the progress bar, if one is drawn.
    pub progress_style: Option<String>,
}

/// A `ToastMarkup` with its strings as character sequences.
pub struct ToastMarkupView {
    pub class_name: Seq<char>,
    pub role: Seq<char>,
    pub style: Seq<char>,
    pub close_button: bool,
    pub progress_style: Option<Seq<char>>,
}

impl View for ToastMarkup {
    type V = ToastMarkupView;

    open spec fn view(&self) -> ToastMarkupView {
        ToastMarkupView {
            class_name: self.class_name@,
            role: self.role@,
            style: self.style@,
            close_button: self.close_button,
            progress_style: match self.progress_style {
                Some(s) => Some(s@),
                None => None,
            },
        }
    }
}

/// The markup of `toast` under `options`.
pub open spec fn toast_markup_spec(toast: ToastView, options: OptionsView) -> ToastMarkupView {
    ToastMarkupView {
        class_name: toast_class_spec(options, toast.kind),
        role: toast.kind.aria_role_spec(),
        style: toast_style_spec(toast.time_out),
        close_button: options.close_button,
        progress_style: if options.progress_bar {
            Some(progress_style_spec(toast.time_out))
        } else {
            None
        },
    }
}

/// Derives the markup of `toast` under `options`.
pub fn toast_markup(toast: &Toast, options: &ToastOptions) -> (markup: ToastMarkup)
    ensures
        markup@ == toast_markup_spec(toast@, options@),
{
    let mut class_name = String::new();
    class_name.append(options.toast_class);
    class_name.append(" ");
    class_name.append(toast.kind.class_name());
    ToastMarkup {
        class_name,
        role: toast.kind.aria_role(),
        style: toast_style(toast.time_out),
        close_button: options.close_button,
        progress_style: if options.progress_bar {
            Some(progress_style(toast.time_out))
        } else {
            None
        },
    }
}

/// What the renderer puts on the element that holds the toasts.
pub struct ContainerMarkup {
    pub id: &'static str,
    pub class_name: String,
}

/// A `ContainerMarkup` with its strings as character sequences.
pub struct ContainerMarkupView {
    pub id: Seq<char>,
    pub class_name: Seq<char>,
}

impl View for ContainerMarkup {
    type V = ContainerMarkupView;

    open spec fn view(&self) -> ContainerMarkupView {
        ContainerMarkupView { id: self.id@, class_name: self.class_name@ }
    }
}

/// Derives the id and the class attribute of the container.
pub fn container_markup(options: &ToastOptions) -> (markup: ContainerMarkup)
    ensures
        markup@ == (ContainerMarkupView {
            id: options@.container_id,
            class_name: container_class_spec(options@),
        }),
{
    let mut class_name = String::new();
    class_name.append(options.position_class);
    class_name.append(" ");
    class_name.append(layout_class(options));
    ContainerMarkup { id: options.container_id, class_name }
}

} // verus!
