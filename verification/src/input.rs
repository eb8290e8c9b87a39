//! The address input of a check, and the request body it is made from.

use vstd::prelude::*;

verus! {

/// The envelope sender that is used when neither the request nor the
/// deployment names one.
pub open spec fn default_from_email() -> Seq<char> {
    "user@example.org"@
}

/// The HELO/EHLO identity that is used when the request names none.
pub open spec fn default_hello_name() -> Seq<char> {
    "gmail.com"@
}

/// The SMTP port that is used when the request names none.
pub const DEFAULT_SMTP_PORT: u16 = 25;

/// The deadline of one phase of the SMTP dialogue, in seconds, when the
/// request names none.
pub const DEFAULT_SMTP_TIMEOUT_SECS: u64 = 10;

/// A SOCKS5 proxy to reach the mail exchanger through.
#[derive(Debug)]
pub struct CheckEmailInputProxy {
    pub host: String,
    pub port: u16,
    pub username: Option<String>,
    pub password: Option<String>,
}

/// The model of an optional text.
pub open spec fn text_view(text: Option<String>) -> Option<Seq<char>> {
    match text {
        Some(t) => Some(t@),
        None => None,
    }
}

/// The model of a proxy.
pub struct ProxyView {
    pub host: Seq<char>,
    pub port: u16,
    pub username: Option<Seq<char>>,
    pub password: Option<Seq<char>>,
}

impl View for CheckEmailInputProxy {
    type V = ProxyView;

    open spec fn view(&self) -> ProxyView {
        ProxyView {
            host: self.host@,
            port: self.port,
            username: text_view(self.username),
            password: text_view(self.password),
        }
    }
}

/// The model of an optional proxy.
pub open spec fn proxy_view(proxy: Option<CheckEmailInputProxy>) -> Option<ProxyView> {
    match proxy {
        Some(p) => Some(p@),
        None => None,
    }
}

/// A copy of an optional text.
pub fn copy_text(text: &Option<String>) -> (copy: Option<String>)
    ensures
        text_view(copy) == text_view(*text),
{
    match text {
        Some(t) => Some(t.clone()),
        None => None,
    }
}

impl CheckEmailInputProxy {
    /// A copy of this proxy.
    pub fn duplicate(&self) -> (p: CheckEmailInputProxy)
        ensures
            p@ == self@,
    {
        CheckEmailInputProxy {
            host: self.host.clone(),
            port: self.port,
            username: copy_text(&self.username),
            password: copy_text(&self.password),
        }
    }
}

/// A copy of an optional proxy.
pub fn copy_proxy(proxy: &Option<CheckEmailInputProxy>) -> (copy: Option<CheckEmailInputProxy>)
    ensures
        proxy_view(copy) == proxy_view(*proxy),
{
    match proxy {
        Some(p) => Some(p.duplicate()),
        None => None,
    }
}

/// The input of one check. It does not change once the check has begun.
#[derive(Debug)]
pub struct CheckEmailInput {
    /// The address under test.
    pub to_email: String,
    /// The envelope sender of `MAIL FROM`.
    pub from_email: String,
    /// The identity of `HELO` and `EHLO`.
    pub hello_name: String,
    /// The proxy of the proxied transport, if there is one.
    pub proxy: Option<CheckEmailInputProxy>,
    /// The port of the mail exchanger.
    pub smtp_port: u16,
    /// The deadline of one phase of the SMTP dialogue, in seconds.
    pub smtp_timeout: u64,
}

/// The model of a check's input.
pub struct InputView {
    pub to_email: Seq<char>,
    pub from_email: Seq<char>,
    pub hello_name: Seq<char>,
    pub proxy: Option<ProxyView>,
    pub smtp_port: u16,
    pub smtp_timeout: u64,
}

impl View for CheckEmailInput {
    type V = InputView;

    open spec fn view(&self) -> InputView {
        InputView {
            to_email: self.to_email@,
            from_email: self.from_email@,
            hello_name: self.hello_name@,
            proxy: proxy_view(self.proxy),
            smtp_port: self.smtp_port,
            smtp_timeout: self.smtp_timeout,
        }
    }
}

/// The input for an address with every setting at its default.
pub open spec fn default_input(to_email: Seq<char>) -> InputView {
    InputView {
        to_email,
        from_email: default_from_email(),
        hello_name: default_hello_name(),
        proxy: None,
        smtp_port: DEFAULT_SMTP_PORT,
        smtp_timeout: DEFAULT_SMTP_TIMEOUT_SECS,
    }
}

impl CheckEmailInput {
    /// The input for an address, with every setting at its default.
    pub fn new(to_email: String) -> (input: CheckEmailInput)
        ensures
            input@ == default_input(to_email@),
    {
        CheckEmailInput {
            to_email,
            from_email: "user@example.org".to_string(),
            hello_name: "gmail.com".to_string(),
            proxy: None,
            smtp_port: DEFAULT_SMTP_PORT,
            smtp_timeout: DEFAULT_SMTP_TIMEOUT_SECS,
        }
    }

    /// This input with another envelope sender.
    pub fn with_from_email(self, from_email: String) -> (input: CheckEmailInput)
        ensures
            input@ == (InputView { from_email: from_email@, ..self@ }),
    {
        CheckEmailInput { from_email, ..self }
    }

    /// This input with another HELO/EHLO identity.
    pub fn with_hello_name(self, hello_name: String) -> (input: CheckEmailInput)
        ensures
            input@ == (InputView { hello_name: hello_name@, ..self@ }),
    {
        CheckEmailInput { hello_name, ..self }
    }

    /// This input with a proxy.
    pub fn with_proxy(self, proxy: CheckEmailInputProxy) -> (input: CheckEmailInput)
        ensures
            input@ == (InputView { proxy: Some(proxy@), ..self@ }),
    {
        CheckEmailInput { proxy: Some(proxy), ..self }
    }

    /// This input with another SMTP port.
    pub fn with_smtp_port(self, smtp_port: u16) -> (input: CheckEmailInput)
        ensures
            input@ == (InputView { smtp_port, ..self@ }),
    {
        CheckEmailInput { smtp_port, ..self }
    }

    /// This input with another phase deadline, in seconds.
    pub fn with_smtp_timeout(self, smtp_timeout: u64) -> (input: CheckEmailInput)
        ensures
            input@ == (InputView { smtp_timeout, ..self@ }),
    {
        CheckEmailInput { smtp_timeout, ..self }
    }

    /// A copy of this input.
    pub fn duplicate(&self) -> (input: CheckEmailInput)
        ensures
            input@ == self@,
    {
        CheckEmailInput {
            to_email: self.to_email.clone(),
            from_email: self.from_email.clone(),
            hello_name: self.hello_name.clone(),
            proxy: copy_proxy(&self.proxy),
            smtp_port: self.smtp_port,
            smtp_timeout: self.smtp_timeout,
        }
    }
}

/// The body of a request to check one address.
#[derive(Debug)]
pub struct ReacherInput {
    pub from_email: Option<String>,
    pub hello_name: Option<String>,
    pub proxy: Option<CheckEmailInputProxy>,
    pub smtp_port: Option<u16>,
    pub to_email: String,
}

/// The model of a request body.
pub struct RequestView {
    pub from_email: Option<Seq<char>>,
    pub hello_name: Option<Seq<char>>,
    pub proxy: Option<ProxyView>,
    pub smtp_port: Option<u16>,
    pub to_email: Seq<char>,
}

impl View for ReacherInput {
    type V = RequestView;

    open spec fn view(&self) -> RequestView {
        RequestView {
            from_email: text_view(self.from_email),
            hello_name: text_view(self.hello_name),
            proxy: proxy_view(self.proxy),
            smtp_port: self.smtp_port,
            to_email: self.to_email@,
        }
    }
}

/// The first of two optional values that is there.
pub open spec fn first_of<T>(a: Option<T>, b: Option<T>) -> Option<T> {
    match a {
        Some(_) => a,
        None => b,
    }
}

/// The input that a request asks for. What the request leaves out is taken
/// from the deployment's fallbacks, and what those leave out from the
/// defaults.
pub open spec fn resolved(
    request: RequestView,
    fallback_from_email: Option<Seq<char>>,
    fallback_proxy: Option<ProxyView>,
) -> InputView {
    InputView {
        to_email: request.to_email,
        from_email: match first_of(request.from_email, fallback_from_email) {
            Some(from) => from,
            None => default_from_email(),
        },
        hello_name: match request.hello_name {
            Some(name) => name,
            None => default_hello_name(),
        },
        proxy: first_of(request.proxy, fallback_proxy),
        smtp_port: match request.smtp_port {
            Some(port) => port,
            None => DEFAULT_SMTP_PORT,
        },
        smtp_timeout: DEFAULT_SMTP_TIMEOUT_SECS,
    }
}

impl ReacherInput {
    /// The request for an address that leaves every setting out.
    pub fn new(to_email: String) -> (request: ReacherInput)
        ensures
            request@ == (RequestView {
                from_email: None,
                hello_name: None,
                proxy: None,
                smtp_port: None,
                to_email: to_email@,
            }),
    {
        ReacherInput { from_email: None, hello_name: None, proxy: None, smtp_port: None, to_email }
    }

    /// The input that this request asks for, given the deployment's fallback
    /// envelope sender and fallback proxy.
    pub fn into_check_input(
        self,
        fallback_from_email: Option<String>,
        fallback_proxy: Option<CheckEmailInputProxy>,
    ) -> (input: CheckEmailInput)
        ensures
            input@ == resolved(self@, text_view(fallback_from_email), proxy_view(fallback_proxy)),
    {
        let from_email = match self.from_email {
            Some(from) => from,
            None => match fallback_from_email {
                Some(from) => from,
                None => "user@example.org".to_string(),
            },
        };
        let hello_name = match self.hello_name {
            Some(name) => name,
            None => "gmail.com".to_string(),
        };
        let proxy = match self.proxy {
            Some(p) => Some(p),
            None => fallback_proxy,
        };
        let smtp_port = match self.smtp_port {
            Some(port) => port,
            None => DEFAULT_SMTP_PORT,
        };
        CheckEmailInput {
            to_email: self.to_email,
            from_email,
            hello_name,
            proxy,
            smtp_port,
            smtp_timeout: DEFAULT_SMTP_TIMEOUT_SECS,
        }
    }
}

} // verus!
