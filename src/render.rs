//! The Markdown renderer: conversion of document text into an HTML fragment
//! under an explicit set of grammar extensions, and the command that relays a
//! loaded document or its load failure to the display surface.
use vstd::prelude::*;

verus! {

/// The grammar extensions that a conversion enables. Every extension not
/// named here stays disabled.
#[derive(Clone, Copy, Debug, PartialEq, Eq, Structural)]
pub struct ExtensionConfig {
    pub strikethrough: bool,
    pub table: bool,
    pub autolink: bool,
    pub tasklist: bool,
    pub superscript: bool,
    pub footnotes: bool,
    pub description_lists: bool,
}

impl ExtensionConfig {
    /// The viewer's configuration: all of the extensions above enabled.
    pub open spec fn viewer_spec() -> ExtensionConfig {
        ExtensionConfig {
            strikethrough: true,
            table: true,
            autolink: true,
            tasklist: true,
            superscript: true,
            footnotes: true,
            description_lists: true,
        }
    }

    /// Builds the viewer's configuration.
    pub fn viewer() -> (c: ExtensionConfig)
        ensures
            c == ExtensionConfig::viewer_spec(),
    {
        ExtensionConfig {
            strikethrough: true,
            table: true,
            autolink: true,
            tasklist: true,
            superscript: true,
            footnotes: true,
            description_lists: true,
        }
    }
}

/// The HTML fragment that comrak renders for the Markdown text `md` with the
/// extensions of `config` enabled and every other option at its default.
pub uninterp spec fn comrak_html(md: Seq<char>, config: ExtensionConfig) -> Seq<char>;

/// Relies on comrak::markdown_to_html: the fragment is a function of the text
/// and of the options alone.
#[verifier::external_body]
fn markdown_to_html(md: &str, config: ExtensionConfig) -> (r: String)
    ensures
        r@ == comrak_html(md@, config),
{
    let mut options = comrak::Options::default();
    options.extension.strikethrough = config.strikethrough;
    options.extension.table = config.table;
    options.extension.autolink = config.autolink;
    options.extension.tasklist = config.tasklist;
    options.extension.superscript = config.superscript;
    options.extension.footnotes = config.footnotes;
    options.extension.description_lists = config.description_lists;
    comrak::markdown_to_html(md, &options)
}

/// Converts the Markdown text `text` into an HTML fragment under `config`.
pub fn convert(text: &str, config: ExtensionConfig) -> (r: String)
    ensures
        r@ == comrak_html(text@, config),
{
    markdown_to_html(text, config)
}

/// Why a document could not be rendered.
#[derive(Debug)]
pub enum RenderError {
    /// The document could not be read as text; the message of the I/O layer,
    /// verbatim.
    IO(String),
}

impl RenderError {
    /// The error's message, as handed to the display surface.
    pub fn message(&self) -> (r: String)
        ensures
            match self {
                RenderError::IO(m) => r@ == m@,
            },
    {
        match self {
            RenderError::IO(m) => m.clone(),
        }
    }
}

/// The view of a loaded document: its text, or the message of the failed
/// load.
pub open spec fn text_result_view(r: Result<String, String>) -> Result<Seq<char>, Seq<char>> {
    match r {
        Ok(s) => Ok(s@),
        Err(e) => Err(e@),
    }
}

/// What rendering a loaded document gives: the fragment of its text, or the
/// load failure's message unchanged.
pub open spec fn rendered(
    loaded: Result<Seq<char>, Seq<char>>,
    config: ExtensionConfig,
) -> Result<Seq<char>, Seq<char>> {
    match loaded {
        Ok(text) => Ok(comrak_html(text, config)),
        Err(message) => Err(message),
    }
}

/// Renders a document whose load gave `loaded`: its text converted under
/// `config`, or an I/O error that carries the load's message.
pub fn render(loaded: Result<String, String>, config: ExtensionConfig) -> (r: Result<
    String,
    RenderError,
>)
    ensures
        match loaded {
            Ok(text) => r matches Ok(html) && html@ == comrak_html(text@, config),
            Err(m) => r matches Err(RenderError::IO(e)) && e@ == m@,
        },
{
    match loaded {
        Ok(text) => Ok(convert(text.as_str(), config)),
        Err(message) => Err(RenderError::IO(message)),
    }
}

/// The display surface's conversion command: renders a loaded document under
/// the viewer's configuration and reports a failure as its message.
pub fn open_markdown(loaded: Result<String, String>) -> (r: Result<String, String>)
    ensures
        text_result_view(r) == rendered(text_result_view(loaded), ExtensionConfig::viewer_spec()),
{
    match render(loaded, ExtensionConfig::viewer()) {
        Ok(html) => Ok(html),
        Err(e) => Err(e.message()),
    }
}

/// Rendering is deterministic: two loads that gave the same text give the same
/// fragment.
pub proof fn lemma_render_deterministic(a: Seq<char>, b: Seq<char>, config: ExtensionConfig)
    requires
        a == b,
    ensures
        rendered(Ok(a), config) == rendered(Ok(b), config),
        rendered(Ok(a), config) is Ok,
{
}

/// A failed load is never rendered: it yields an error that carries the
/// load's message, and no fragment.
pub proof fn lemma_failed_load_is_error(message: Seq<char>, config: ExtensionConfig)
    ensures
        rendered(Err(message), config) == Err::<Seq<char>, Seq<char>>(message),
{
}

} // verus!
