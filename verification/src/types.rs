use vstd::prelude::*;

verus! {

/// Identity of a toast. Real ids start at 1; 0 never names a toast.
pub type ToastId = u64;

/// Severity of a toast. It selects the styling class and the semantic role.
#[derive(Clone, Copy, Debug, PartialEq, Eq, Structural)]
pub enum ToastKind {
    Error,
    Info,
    Success,
    Warning,
}

impl ToastKind {
    /// The styling class of each severity, as a sequence of characters.
    pub open spec fn class_name_spec(self) -> Seq<char> {
        match self {
            ToastKind::Error => "toast-error"@,
            ToastKind::Info => "toast-info"@,
            ToastKind::Success => "toast-success"@,
            ToastKind::Warning => "toast-warning"@,
        }
    }

    /// The semantic role of each severity: errors and warnings interrupt,
    /// the other two only report.
    pub open spec fn aria_role_spec(self) -> Seq<char> {
        match self {
            ToastKind::Error | ToastKind::Warning => "alert"@,
            ToastKind::Info | ToastKind::Success => "status"@,
        }
    }

    /// The styling class of this severity.
    pub fn class_name(self) -> (name: &'static str)
        ensures
            name@ == self.class_name_spec(),
    {
        match self {
            ToastKind::Error => "toast-error",
            ToastKind::Info => "toast-info",
            ToastKind::Success => "toast-success",
            ToastKind::Warning => "toast-warning",
        }
    }

    /// The semantic role of this severity.
    pub fn aria_role(self) -> (role: &'static str)
        ensures
            role@ == self.aria_role_spec(),
    {
        match self {
            ToastKind::Error => "alert",
            ToastKind::Info => "status",
            ToastKind::Success => "status",
            ToastKind::Warning => "alert",
        }
    }
}

/// Display and behaviour settings. All durations are in milliseconds.
#[derive(Clone, Copy, Debug, PartialEq)]
pub struct ToastOptions {
    pub tap_to_dismiss: bool,
    pub toast_class: &'static str,
    pub container_id: &'static str,
    pub position_class: &'static str,
    /// Default lifetime of a toast; 0 means that it never expires by itself.
    pub time_out: u64,
    pub extended_time_out: u64,
    pub close_button: bool,
    pub newest_on_top: bool,
    pub prevent_duplicates: bool,
    pub progress_bar: bool,
    pub rtl: bool,
}

/// What a `ToastOptions` value says, with its strings as character sequences.
pub struct OptionsView {
    pub tap_to_dismiss: bool,
    pub toast_class: Seq<char>,
    pub container_id: Seq<char>,
    pub position_class: Seq<char>,
    pub time_out: nat,
    pub extended_time_out: nat,
    pub close_button: bool,
    pub newest_on_top: bool,
    pub prevent_duplicates: bool,
    pub progress_bar: bool,
    pub rtl: bool,
}

impl OptionsView {
    /// The settings a store starts with when the host gives none.
    pub open spec fn defaults() -> OptionsView {
        OptionsView {
            tap_to_dismiss: true,
            toast_class: "toast"@,
            container_id: "toast-container"@,
            position_class: "toast-top-right"@,
            time_out: 5000,
            extended_time_out: 1000,
            close_button: false,
            newest_on_top: true,
            prevent_duplicates: false,
            progress_bar: false,
            rtl: false,
        }
    }
}

impl View for ToastOptions {
    type V = OptionsView;

    open spec fn view(&self) -> OptionsView {
        OptionsView {
            tap_to_dismiss: self.tap_to_dismiss,
            toast_class: self.toast_class@,
            container_id: self.container_id@,
            position_class: self.position_class@,
            time_out: self.time_out as nat,
            extended_time_out: self.extended_time_out as nat,
            close_button: self.close_button,
            newest_on_top: self.newest_on_top,
            prevent_duplicates: self.prevent_duplicates,
            progress_bar: self.progress_bar,
            rtl: self.rtl,
        }
    }
}

impl Default for ToastOptions {
    fn default() -> (options: Self)
        ensures
            options@ == OptionsView::defaults(),
    {
        ToastOptions {
            tap_to_dismiss: true,
            toast_class: "toast",
            container_id: "toast-container",
            position_class: "toast-top-right",
            time_out: 5000,
            extended_time_out: 1000,
            close_button: false,
            newest_on_top: true,
            prevent_duplicates: false,
            progress_bar: false,
            rtl: false,
        }
    }
}

/// What a caller asks for: one toast, not yet shown.
#[derive(Clone, Debug, PartialEq)]
pub struct ToastRequest {
    pub kind: ToastKind,
    pub message: String,
    pub title: Option<String>,
    /// Lifetime of this one toast; `None` leaves it to the store's options.
    pub time_out: Option<u64>,
}

/// A request with its strings as character sequences.
pub struct RequestView {
    pub kind: ToastKind,
    pub message: Seq<char>,
    pub title: Option<Seq<char>>,
    pub time_out: Option<nat>,
}

/// The characters of an optional string.
pub open spec fn title_view(title: Option<String>) -> Option<Seq<char>> {
    match title {
        Some(t) => Some(t@),
        None => None,
    }
}

/// An optional lifetime as a natural number of milliseconds.
pub open spec fn millis_view(time_out: Option<u64>) -> Option<nat> {
    match time_out {
        Some(t) => Some(t as nat),
        None => None,
    }
}

impl View for ToastRequest {
    type V = RequestView;

    open spec fn view(&self) -> RequestView {
        RequestView {
            kind: self.kind,
            message: self.message@,
            title: title_view(self.title),
            time_out: millis_view(self.time_out),
        }
    }
}

impl ToastRequest {
    /// A request with a message, no title, and the store's default lifetime.
    pub fn new(kind: ToastKind, message: &str) -> (request: Self)
        ensures
            request@ == (RequestView { kind, message: message@, title: None, time_out: None }),
    {
        ToastRequest { kind, message: message.to_owned(), title: None, time_out: None }
    }

    /// The same request with that title.
    pub fn with_title(self, title: &str) -> (request: Self)
        ensures
            request@ == (RequestView { title: Some(title@), ..self@ }),
    {
        let mut request = self;
        request.title = Some(title.to_owned());
        request
    }

    /// The same request with a lifetime of its own, in milliseconds; 0 means
    /// that the toast never expires by itself.
    pub fn with_timeout(self, timeout: u64) -> (request: Self)
        ensures
            request@ == (RequestView { time_out: Some(timeout as nat), ..self@ }),
    {
        let mut request = self;
        request.time_out = Some(timeout);
        request
    }
}

/// One visible toast, as the store keeps it.
#[derive(Clone, Debug, PartialEq)]
pub struct Toast {
    pub id: ToastId,
    pub kind: ToastKind,
    pub message: String,
    pub title: Option<String>,
    /// The lifetime that was settled when the toast was inserted.
    pub time_out: u64,
}

/// A toast with its strings as character sequences.
pub struct ToastView {
    pub id: nat,
    pub kind: ToastKind,
    pub message: Seq<char>,
    pub title: Option<Seq<char>>,
    pub time_out: nat,
}

impl View for Toast {
    type V = ToastView;

    open spec fn view(&self) -> ToastView {
        ToastView {
            id: self.id as nat,
            kind: self.kind,
            message: self.message@,
            title: title_view(self.title),
            time_out: self.time_out as nat,
        }
    }
}

} // verus!
