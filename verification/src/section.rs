//! The section processor: tokenize one section's text, run the rewriter over
//! the token stream, splice the directives back into the stream, and
//! re-serialize it to text.
use vstd::prelude::*;

use pulldown_cmark::Event;

use crate::render::RenderError;
use crate::rewrite::{lemma_rewrite_from_len, rewrite_tokens, spec_rewrite, RewriteState};
use crate::settings::{Settings, SettingsV};
use crate::token::{directives_view, tokens_view, Directive, DirectiveV, FenceInfo, Token, TokenV};

verus! {

#[verifier::external_type_specification]
#[verifier::external_body]
#[allow(dead_code)]
pub struct ExEvent<'a>(Event<'a>);

#[verifier::external_type_specification]
#[verifier::external_body]
#[allow(dead_code)]
pub struct ExCodeBlockKind<'a>(pulldown_cmark::CodeBlockKind<'a>);

/// The token stream the tokenizer produces for a text. It depends on the text
/// alone; the grammar itself is not restated here.
pub uninterp spec fn events_of(text: Seq<char>) -> Seq<Event<'static>>;

/// The reduced reading of one token: which code-block boundary, text run or
/// pass-through it is. It depends on the token alone.
pub uninterp spec fn class_of(e: Event<'static>) -> TokenV;

/// The text the serializer produces for a token stream. It depends on the
/// stream alone.
pub uninterp spec fn cmark_text_of(events: Seq<Event<'static>>) -> Seq<char>;

/// The generic block boundary token: the start boundary when `open`, the end
/// boundary otherwise.
pub uninterp spec fn boundary_ev(open: bool) -> Event<'static>;

/// The token carrying rendered markup text.
pub uninterp spec fn html_ev_of(markup: Seq<char>) -> Event<'static>;

/// The reduced reading of a whole token stream, in order.
pub open spec fn classified(events: Seq<Event<'static>>) -> Seq<TokenV> {
    events.map_values(|e: Event<'static>| class_of(e))
}

/// The token stream the directives leave behind: a kept position holds the
/// original token; a replaced position holds the generic boundary or the
/// markup token the directive names.
pub open spec fn spliced(events: Seq<Event<'static>>, ds: Seq<DirectiveV>) -> Seq<
    Event<'static>,
> {
    Seq::new(
        ds.len(),
        |j: int|
            match ds[j] {
                DirectiveV::Keep => events[j],
                DirectiveV::OpenBlock => boundary_ev(true),
                DirectiveV::Markup(m) => html_ev_of(m),
                DirectiveV::CloseBlock => boundary_ev(false),
            },
    )
}

/// Relies on pulldown_cmark::Parser: turns formatted text into its ordered
/// stream of typed tokens, a function of the text alone.
#[verifier::external_body]
fn tokenize<'a>(text: &'a str) -> (r: Vec<Event<'a>>)
    ensures
        r@ == events_of(text@),
{
    pulldown_cmark::Parser::new(text).collect()
}

/// Relies on the shape of pulldown_cmark::Event: reduces one token to what
/// the rewriter reads — code-block boundaries with their language annotation,
/// text runs, and everything else as an opaque pass-through.
#[verifier::external_body]
fn classify(e: &Event) -> (t: Token)
    ensures
        t@ == class_of(*e),
{
    match e {
        Event::Start(pulldown_cmark::Tag::CodeBlock(k)) => Token::StartBlock(fence_info(k)),
        Event::End(pulldown_cmark::Tag::CodeBlock(k)) => Token::EndBlock(fence_info(k)),
        Event::Text(c) => Token::Text(c.to_string()),
        _ => Token::Other,
    }
}

/// Relies on the shape of pulldown_cmark::CodeBlockKind: whether the block is
/// fenced, whether its annotation is a borrowed slice, and the annotation.
#[verifier::external_body]
fn fence_info(k: &pulldown_cmark::CodeBlockKind) -> FenceInfo {
    match k {
        pulldown_cmark::CodeBlockKind::Fenced(c) => FenceInfo {
            fenced: true,
            borrowed: matches!(c, pulldown_cmark::CowStr::Borrowed(_)),
            tag: c.to_string(),
        },
        pulldown_cmark::CodeBlockKind::Indented => FenceInfo {
            fenced: false,
            borrowed: false,
            tag: String::new(),
        },
    }
}

/// Relies on pulldown_cmark::Event::Start and Event::End with Tag::Paragraph:
/// the generic block boundary emitted in place of a marked boundary.
#[verifier::external_body]
fn paragraph_boundary(open: bool) -> (r: Event<'static>)
    ensures
        r == boundary_ev(open),
{
    if open {
        Event::Start(pulldown_cmark::Tag::Paragraph)
    } else {
        Event::End(pulldown_cmark::Tag::Paragraph)
    }
}

/// Relies on pulldown_cmark::Event::Html: the token carrying rendered markup.
#[verifier::external_body]
fn html_event(markup: String) -> (r: Event<'static>)
    ensures
        r == html_ev_of(markup@),
{
    Event::Html(pulldown_cmark::CowStr::from(markup))
}

/// Why processing one section failed. Failures are section-local: the caller
/// leaves the section's text unchanged and goes on.
#[derive(Debug)]
pub enum ProcessError {
    /// A captured region's text could not be rendered.
    Render(RenderError),
    /// The rewritten token stream could not be re-serialized to text.
    Serialize,
}

/// Relies on pulldown_cmark_to_cmark::cmark: re-serializes a token stream to
/// formatted text, a function of the stream alone. Its only error path is the
/// formatter's, and writing to a String cannot fail, so the text is always
/// produced.
#[verifier::external_body]
fn serialize_events(events: &Vec<Event>) -> (r: Result<String, ProcessError>)
    ensures
        r is Ok,
        r matches Ok(t) ==> t@ == cmark_text_of(events@),
{
    let mut buf = String::new();
    match pulldown_cmark_to_cmark::cmark(events.iter(), &mut buf) {
        Ok(_) => Ok(buf),
        Err(_) => Err(ProcessError::Serialize),
    }
}

/// The reduced form of every token in the stream, in order.
fn classify_all(events: &Vec<Event>) -> (r: Vec<Token>)
    ensures
        tokens_view(r@) == classified(events@),
{
    let mut out: Vec<Token> = Vec::new();
    let mut i: usize = 0;
    while i < events.len()
        invariant
            i <= events@.len(),
            out@.len() == i,
            forall|j: int| 0 <= j < i ==> #[trigger] out@[j]@ == class_of(events@[j]),
        decreases events.len() - i,
    {
        let t = classify(&events[i]);
        let ghost prev = out@;
        out.push(t);
        proof {
            assert forall|j: int| 0 <= j < i + 1 implies #[trigger] out@[j]@ == class_of(
                events@[j],
            ) by {
                if j < i {
                    assert(out@[j] == prev[j]);
                }
            }
        }
        i = i + 1;
    }
    proof {
        assert(tokens_view(out@) =~= classified(events@));
    }
    out
}

/// Carry the directives out on the token stream: the result is exactly
/// [`spliced`] — a kept position holds the original token unchanged, so the
/// non-rewritten portions of the stream are structure-preserving, and a
/// replaced position holds the generic boundary or markup token the directive
/// names.
pub fn splice<'a>(events: Vec<Event<'a>>, directives: &Vec<Directive>) -> (r: Vec<Event<'a>>)
    requires
        directives@.len() == events@.len(),
    ensures
        r@ == spliced(events@, directives_view(directives@)),
{
    let ghost orig = events@;
    let ghost dv = directives_view(directives@);
    let mut rem = events;
    let mut out: Vec<Event<'a>> = Vec::new();
    proof {
        assert(orig.skip(0) =~= orig);
    }
    let mut i: usize = 0;
    while i < directives.len()
        invariant
            i <= directives@.len(),
            directives@.len() == orig.len(),
            dv == directives_view(directives@),
            rem@ == orig.skip(i as int),
            out@.len() == i,
            forall|j: int| 0 <= j < i ==> #[trigger] out@[j] == spliced(orig, dv)[j],
        decreases directives.len() - i,
    {
        proof {
            assert(orig.skip(i as int).len() == orig.len() - i);
            assert(dv[i as int] == directives@[i as int]@);
        }
        let e = rem.remove(0);
        proof {
            assert(e == orig[i as int]);
            assert(orig.skip(i as int).remove(0) =~= orig.skip(i as int + 1));
        }
        let ghost prev = out@;
        match &directives[i] {
            Directive::Keep => out.push(e),
            Directive::OpenBlock => out.push(paragraph_boundary(true)),
            Directive::Markup(markup) => out.push(html_event(markup.clone())),
            Directive::CloseBlock => out.push(paragraph_boundary(false)),
        }
        proof {
            assert forall|j: int| 0 <= j < i + 1 implies #[trigger] out@[j] == spliced(
                orig,
                dv,
            )[j] by {
                if j < i {
                    assert(out@[j] == prev[j]);
                }
            }
        }
        i = i + 1;
    }
    proof {
        assert(out@ =~= spliced(orig, dv));
    }
    out
}

/// One addressable unit of the document: its name, its raw formatted text,
/// and nothing else this core reads.
pub struct Section {
    pub name: String,
    pub raw_text: String,
}

impl Section {
    pub fn new(name: String, raw_text: String) -> (r: Section)
        ensures
            r.name@ == name@,
            r.raw_text@ == raw_text@,
    {
        Section { name, raw_text }
    }
}

/// The text one section's processing produces: tokenize, rewrite every marked
/// region per the state machine, splice, and re-serialize.
pub open spec fn spec_processed_text(text: Seq<char>, s: SettingsV) -> Seq<char> {
    cmark_text_of(spliced(events_of(text), spec_rewrite(classified(events_of(text)), s)))
}

/// Process one section: tokenize its text, rewrite every marked fenced region
/// into rendered markup, and re-serialize. Returns exactly the processed
/// text; the section itself is never touched here. With the present renderer
/// and serializer no failure is left, so success is always owed; the error
/// cases remain in the result type for the walker's isolation policy.
pub fn process_code_blocks(section: &Section, settings: &Settings) -> (r: Result<
    String,
    ProcessError,
>)
    ensures
        r matches Ok(t) && t@ == spec_processed_text(section.raw_text@, settings@),
{
    let events = tokenize(section.raw_text.as_str());
    let toks = classify_all(&events);
    let directives = match rewrite_tokens(&toks, settings) {
        Ok(ds) => ds,
        Err(e) => {
            proof {
                assert(false);
            }
            return Err(ProcessError::Render(e));
        },
    };
    proof {
        lemma_rewrite_from_len(RewriteState::Idle, tokens_view(toks@), settings@);
        assert(directives_view(directives@) == spec_rewrite(tokens_view(toks@), settings@));
        assert(directives@.len() == events@.len());
    }
    let out = splice(events, &directives);
    serialize_events(&out)
}

} // verus!
