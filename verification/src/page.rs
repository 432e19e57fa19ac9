//! How a page is rendered: what it has to give, and what is made of it in
//! each mode.

use crate::error::{shows, Error};
use crate::json::{
    error_text, refuses, refuses_string, says, string_to_text, to_text, writes,
};
use crate::message::{Request, Response};
use crate::mode::Mode;
use crate::outside::json_quoted;
use crate::text::contains_text;
use serde_json::Error as JsonError;
use serde_json::Value;
use vstd::prelude::*;
use vstd::utf8::encode_utf8;

verus! {

/// Why a page could not be rendered.
#[derive(Debug)]
#[allow(inconsistent_fields)]
pub enum RenderError {
    /// The page's data could not be written as JSON.
    Serialization { error: JsonError },
    /// The template could not be rendered.
    Template { message: String },
    /// The page itself failed.
    Page { error: Error },
}

impl RenderError {
    /// The text of the error: what the serializer says, the template's
    /// message, or the text of the page's own error.
    pub fn to_string(&self) -> (text: String)
        ensures
            match *self {
                RenderError::Serialization { error } => says(error, text@),
                RenderError::Template { message } => text@ == message@,
                RenderError::Page { error } => shows(text@, error),
            },
    {
        match self {
            RenderError::Serialization { error } => error_text(error),
            RenderError::Template { message } => message.clone(),
            RenderError::Page { error } => error.to_string(),
        }
    }
}

impl From<JsonError> for RenderError {
    fn from(error: JsonError) -> (e: RenderError) {
        RenderError::Serialization { error }
    }
}

impl vstd::std_specs::convert::FromSpecImpl<JsonError> for RenderError {
    open spec fn obeys_from_spec() -> bool {
        true
    }

    open spec fn from_spec(error: JsonError) -> RenderError {
        RenderError::Serialization { error }
    }
}

impl From<Error> for RenderError {
    fn from(error: Error) -> (e: RenderError) {
        RenderError::Page { error }
    }
}

impl vstd::std_specs::convert::FromSpecImpl<Error> for RenderError {
    open spec fn obeys_from_spec() -> bool {
        true
    }

    open spec fn from_spec(error: Error) -> RenderError {
        RenderError::Page { error }
    }
}

/// A page as a widget: its identifier and its configuration.
#[derive(Debug)]
pub struct WidgetSpec {
    pub id: &'static str,
    pub config: Value,
}

/// The descriptor of a widget as JSON, made of the JSON of its identifier
/// and of its configuration.
pub open spec fn widget_text(id: Seq<char>, config: Seq<char>) -> Seq<char> {
    "{\"id\":"@ + id + ",\"config\":"@ + config + "}"@
}

/// The descriptor of a widget as JSON. `id` is the JSON of its identifier,
/// `config` that of its configuration.
pub fn frame_widget(id: &str, config: &str) -> (text: String)
    ensures
        text@ == widget_text(id@, config@),
{
    let mut text = "{\"id\":".to_owned();
    text.append(id);
    text.append(",\"config\":");
    text.append(config);
    text.append("}");
    text
}

/// Whether `outcome` is what writing the widget `spec` as JSON comes to: the
/// descriptor made of its identifier as a JSON string and of its
/// configuration as `serde_json` writes it; or the failure to write one of
/// them.
pub open spec fn widget_json(spec: WidgetSpec, outcome: Result<Seq<char>, RenderError>) -> bool {
    match outcome {
        Ok(text) => exists|config: Seq<char>| #[trigger]
            writes(spec.config, config) && text == widget_text(json_quoted(spec.id@), config),
        Err(e) => e matches RenderError::Serialization { error } && (refuses_string(
            spec.id@,
            error,
        ) || refuses(spec.config, error)),
    }
}

/// A text, or the failure to make it, by what the text says.
pub open spec fn text_outcome(r: Result<String, RenderError>) -> Result<Seq<char>, RenderError> {
    match r {
        Ok(text) => Ok(text@),
        Err(e) => Err(e),
    }
}

impl WidgetSpec {
    /// The widget as JSON: an object with `id` and then `config`, without
    /// white space between the parts.
    pub fn to_json(&self) -> (r: Result<String, RenderError>)
        ensures
            widget_json(*self, text_outcome(r)),
    {
        let id = match string_to_text(self.id) {
            Ok(id) => id,
            Err(error) => {
                return Err(RenderError::Serialization { error });
            },
        };
        let config = match to_text(&self.config) {
            Ok(config) => config,
            Err(error) => {
                return Err(RenderError::Serialization { error });
            },
        };
        let text = frame_widget(id.as_str(), config.as_str());
        assert(writes(self.config, config@) && text@ == widget_text(
            json_quoted(self.id@),
            config@,
        ));
        Ok(text)
    }
}

/// What renders a widget as an HTML document. How it does so is its own
/// affair.
pub trait HTML {
    /// The document for `spec`.
    fn render(&self, spec: WidgetSpec) -> Result<Vec<u8>, RenderError>;
}

/// Whether `r` is what `API` makes of the response `resp` and of `json`, the
/// page's JSON or the error that the page gave instead: the response with the
/// JSON as `serde_json` writes it for its body; the page's error; or the
/// error of `serde_json` where it refuses the JSON.
pub open spec fn serves_json(
    json: Result<Value, RenderError>,
    resp: Response,
    r: Result<Response, RenderError>,
) -> bool {
    match json {
        Err(e) => r == Err::<Response, RenderError>(e),
        Ok(value) => match r {
            Ok(out) => exists|text: Seq<char>| #[trigger]
                writes(value, text) && out.carries(resp, Mode::API, encode_utf8(text)),
            Err(e) => e matches RenderError::Serialization { error } && refuses(value, error),
        },
    }
}

/// Whether `r` is what `Layout` makes of the response `resp` and of `spec`,
/// the page's widget or the error that the page gave instead: the response
/// with the widget's descriptor for its body; the page's error; or the
/// failure to write the descriptor.
pub open spec fn serves_widget(
    spec: Result<WidgetSpec, RenderError>,
    resp: Response,
    r: Result<Response, RenderError>,
) -> bool {
    match spec {
        Err(e) => r == Err::<Response, RenderError>(e),
        Ok(spec) => match r {
            Ok(out) => exists|text: Seq<char>| #[trigger]
                widget_json(spec, Ok(text)) && out.carries(resp, Mode::Layout, encode_utf8(text)),
            Err(e) => widget_json(spec, Err(e)),
        },
    }
}

/// Whether `r` is what `HTML` makes of the response `resp` and of
/// `document`, the document that was rendered or the error that came
/// instead: the response with the document for its body, or that error.
pub open spec fn serves_document(
    document: Result<Vec<u8>, RenderError>,
    resp: Response,
    r: Result<Response, RenderError>,
) -> bool {
    match document {
        Err(e) => r == Err::<Response, RenderError>(e),
        Ok(body) => r matches Ok(out) && out.carries(resp, Mode::HTML, body@),
    }
}

/// The response `resp` with the page's JSON as its body, or why there is
/// none.
pub fn json_response(json: Result<Value, RenderError>, resp: Response) -> (r: Result<
    Response,
    RenderError,
>)
    ensures
        serves_json(json, resp, r),
{
    match json {
        Ok(value) => match to_text(&value) {
            Ok(text) => Ok(resp.with_body(Mode::API, text.as_str().as_bytes_vec())),
            Err(error) => Err(RenderError::Serialization { error }),
        },
        Err(e) => Err(e),
    }
}

/// The response `resp` with the descriptor of the page's widget as its body,
/// or why there is none.
pub fn widget_response(spec: Result<WidgetSpec, RenderError>, resp: Response) -> (r: Result<
    Response,
    RenderError,
>)
    ensures
        serves_widget(spec, resp, r),
{
    match spec {
        Ok(spec) => match spec.to_json() {
            Ok(text) => Ok(resp.with_body(Mode::Layout, text.as_str().as_bytes_vec())),
            Err(e) => Err(e),
        },
        Err(e) => Err(e),
    }
}

/// The response `resp` with the rendered document as its body, or why there
/// is none.
pub fn document_response(document: Result<Vec<u8>, RenderError>, resp: Response) -> (r: Result<
    Response,
    RenderError,
>)
    ensures
        serves_document(document, resp, r),
{
    match document {
        Ok(body) => Ok(resp.with_body(Mode::HTML, body)),
        Err(e) => Err(e),
    }
}

/// Whether `resp` is a response to start from: status 200 and no headers.
pub open spec fn is_fresh(resp: Response) -> bool {
    resp.status == 200 && resp.headers@.len() == 0
}

/// What a page has to give to be served: an identifier that stays the same,
/// and its state as JSON.
pub trait Page: Sized {
    /// The page's identifier.
    fn realm_id(&self) -> &'static str;

    /// The page's state, as the widget is configured with it.
    fn realm_config(&self) -> Result<Value, RenderError>;

    /// The page's state, as `API` serves it. It is the configuration unless
    /// the page says otherwise.
    fn realm_json(&self) -> (r: Result<Value, RenderError>)
        default_ensures
            call_ensures(Self::realm_config, (self,), r),
    {
        self.realm_config()
    }

    /// The page as a widget: its identifier and its configuration, or the
    /// error of the page that has no configuration to give.
    fn widget_spec(&self) -> (r: Result<WidgetSpec, RenderError>)
        ensures
            match r {
                Ok(spec) => call_ensures(Self::realm_id, (self,), spec.id) && call_ensures(
                    Self::realm_config,
                    (self,),
                    Ok::<Value, RenderError>(spec.config),
                ),
                Err(error) => call_ensures(
                    Self::realm_config,
                    (self,),
                    Err::<Value, RenderError>(error),
                ),
            },
    {
        let id = self.realm_id();
        match self.realm_config() {
            Ok(config) => Ok(WidgetSpec { id, config }),
            Err(error) => Err(error),
        }
    }

    /// The response `resp` with the page as its body, in the mode that `req`
    /// asks for. In `API` the body is the page's JSON. In `HTML` it is the
    /// document that `html` renders of the page's widget. In `Layout` it is
    /// the descriptor of the page's widget. The status and the headers of
    /// `resp` stay, and the content type becomes that of the mode. What the
    /// page, `html` or the writing of JSON fails with is the error. The
    /// configuration is asked for once.
    fn page_with_response<H: HTML>(&self, req: &Request, html: H, resp: Response) -> (r: Result<
        Response,
        RenderError,
    >)
        ensures
            match Mode::detected(req) {
                Mode::API => exists|json: Result<Value, RenderError>| #[trigger]
                    call_ensures(Self::realm_json, (self,), json) && serves_json(json, resp, r),
                Mode::HTML => exists|spec: Result<WidgetSpec, RenderError>| #[trigger]
                    call_ensures(Self::widget_spec, (self,), spec) && match spec {
                        Err(e) => r == Err::<Response, RenderError>(e),
                        Ok(spec) => exists|document: Result<Vec<u8>, RenderError>| #[trigger]
                            call_ensures(H::render, (&html, spec), document) && serves_document(
                                document,
                                resp,
                                r,
                            ),
                    },
                Mode::Layout => exists|spec: Result<WidgetSpec, RenderError>| #[trigger]
                    call_ensures(Self::widget_spec, (self,), spec) && serves_widget(spec, resp, r),
            },
    {
        match Mode::detect(req) {
            Mode::API => json_response(self.realm_json(), resp),
            Mode::HTML => match self.widget_spec() {
                Ok(spec) => document_response(html.render(spec), resp),
                Err(e) => Err(e),
            },
            Mode::Layout => widget_response(self.widget_spec(), resp),
        }
    }

    /// The page as the body of a fresh response, in the mode that `req` asks
    /// for: what `page_with_response` makes of the response with status 200
    /// and without headers.
    fn page<H: HTML>(&self, req: &Request, html: H) -> (r: Result<Response, RenderError>)
        ensures
            exists|fresh: Response| #[trigger]
                is_fresh(fresh) && match Mode::detected(req) {
                    Mode::API => exists|json: Result<Value, RenderError>| #[trigger]
                        call_ensures(Self::realm_json, (self,), json) && serves_json(
                            json,
                            fresh,
                            r,
                        ),
                    Mode::HTML => exists|spec: Result<WidgetSpec, RenderError>| #[trigger]
                        call_ensures(Self::widget_spec, (self,), spec) && match spec {
                            Err(e) => r == Err::<Response, RenderError>(e),
                            Ok(spec) => exists|document: Result<Vec<u8>, RenderError>| #[trigger]
                                call_ensures(H::render, (&html, spec), document)
                                    && serves_document(document, fresh, r),
                        },
                    Mode::Layout => exists|spec: Result<WidgetSpec, RenderError>| #[trigger]
                        call_ensures(Self::widget_spec, (self,), spec) && serves_widget(
                            spec,
                            fresh,
                            r,
                        ),
                },
    {
        let fresh = Response::new(Vec::new());
        assert(is_fresh(fresh));
        self.page_with_response(req, html, fresh)
    }
}

/// The descriptor that `Layout` serves holds the JSON of the identifier and
/// the JSON of the configuration as they are, each in its place: the first
/// behind `{"id":`, the second behind `,"config":` and up to the closing
/// brace. So what `API` serves bare, `Layout` serves in the envelope, and
/// nothing else sets the two apart.
pub proof fn layout_holds_config(id: Seq<char>, config: Seq<char>)
    ensures
        widget_text(id, config).len() == id.len() + config.len() + 17,
        widget_text(id, config).subrange(6, 6 + id.len() as int) == id,
        widget_text(id, config).subrange(
            16 + id.len() as int,
            16 + id.len() as int + config.len() as int,
        ) == config,
        contains_text(widget_text(id, config), id),
        contains_text(widget_text(id, config), config),
{
    reveal_strlit("{\"id\":");
    reveal_strlit(",\"config\":");
    reveal_strlit("}");
    let text = widget_text(id, config);
    let a = 6 as int;
    let b = 16 + id.len() as int;
    assert(text.subrange(a, a + id.len()) =~= id);
    assert(text.subrange(b, b + config.len()) =~= config);
}

/// What `API` serves of a page's state and what `Layout` serves of a widget
/// that is configured with that state are the same thing written by the same
/// writer: once bare, once inside the descriptor.
pub proof fn layout_wraps_what_api_serves(
    state: Value,
    id: &'static str,
    base: Response,
    api: Response,
    layout: Response,
)
    requires
        serves_json(Ok(state), base, Ok(api)),
        serves_widget(Ok(WidgetSpec { id, config: state }), base, Ok(layout)),
    ensures
        exists|bare: Seq<char>, wrapped: Seq<char>|
            {
                &&& #[trigger] writes(state, bare)
                &&& #[trigger] writes(state, wrapped)
                &&& api.body@ == encode_utf8(bare)
                &&& layout.body@ == encode_utf8(widget_text(json_quoted(id@), wrapped))
            },
        api.status == layout.status,
        api.headers == layout.headers,
        api.content_type@ == layout.content_type@,
{
    let spec = WidgetSpec { id, config: state };
    let bare = choose|text: Seq<char>| #[trigger]
        writes(state, text) && api.carries(base, Mode::API, encode_utf8(text));
    let text = choose|text: Seq<char>| #[trigger]
        widget_json(spec, Ok(text)) && layout.carries(base, Mode::Layout, encode_utf8(text));
    let wrapped = choose|config: Seq<char>| #[trigger]
        writes(spec.config, config) && text == widget_text(json_quoted(spec.id@), config);
    assert(writes(state, bare) && writes(state, wrapped));
}

} // verus!
