//! The library's own model of one tokenized unit of a section's text, and the
//! rewrite directives the state machine emits for each token.
use vstd::prelude::*;

verus! {

/// What a start or end boundary of a code block looks like: whether the block
/// is fenced, whether its language annotation is an unmodified (borrowed)
/// slice of the source, and the annotation text itself.
pub struct FenceInfo {
    pub fenced: bool,
    pub borrowed: bool,
    pub tag: String,
}

/// Spec-level image of [`FenceInfo`].
pub ghost struct FenceInfoV {
    pub fenced: bool,
    pub borrowed: bool,
    pub tag: Seq<char>,
}

impl View for FenceInfo {
    type V = FenceInfoV;

    open spec fn view(&self) -> FenceInfoV {
        FenceInfoV { fenced: self.fenced, borrowed: self.borrowed, tag: self.tag@ }
    }
}

/// One token of a section's tokenized text, reduced to what the rewriter
/// reads: code-block boundaries, literal text runs, and everything else.
pub enum Token {
    StartBlock(FenceInfo),
    Text(String),
    EndBlock(FenceInfo),
    Other,
}

/// Spec-level image of [`Token`].
pub ghost enum TokenV {
    StartBlock(FenceInfoV),
    Text(Seq<char>),
    EndBlock(FenceInfoV),
    Other,
}

impl View for Token {
    type V = TokenV;

    open spec fn view(&self) -> TokenV {
        match self {
            Token::StartBlock(f) => TokenV::StartBlock(f@),
            Token::Text(s) => TokenV::Text(s@),
            Token::EndBlock(f) => TokenV::EndBlock(f@),
            Token::Other => TokenV::Other,
        }
    }
}

/// The fence tag that marks a region for rewriting.
pub open spec fn spec_marker() -> Seq<char> {
    "bob"@
}

/// A start boundary that opens a region to rewrite: a fenced block whose
/// language annotation is the unmodified marker.
pub open spec fn is_marked_start(t: TokenV) -> bool {
    match t {
        TokenV::StartBlock(f) => f.fenced && f.borrowed && f.tag == spec_marker(),
        _ => false,
    }
}

/// The matching end boundary of a marked region.
pub open spec fn is_marked_end(t: TokenV) -> bool {
    match t {
        TokenV::EndBlock(f) => f.fenced && f.borrowed && f.tag == spec_marker(),
        _ => false,
    }
}

/// What the rewriter decides to do at one token position: keep the original
/// token, or replace it with a generic block boundary or rendered markup.
pub enum Directive {
    Keep,
    OpenBlock,
    Markup(String),
    CloseBlock,
}

/// Spec-level image of [`Directive`].
pub ghost enum DirectiveV {
    Keep,
    OpenBlock,
    Markup(Seq<char>),
    CloseBlock,
}

impl View for Directive {
    type V = DirectiveV;

    open spec fn view(&self) -> DirectiveV {
        match self {
            Directive::Keep => DirectiveV::Keep,
            Directive::OpenBlock => DirectiveV::OpenBlock,
            Directive::Markup(s) => DirectiveV::Markup(s@),
            Directive::CloseBlock => DirectiveV::CloseBlock,
        }
    }
}

/// The views of a sequence of tokens.
pub open spec fn tokens_view(ts: Seq<Token>) -> Seq<TokenV> {
    ts.map_values(|t: Token| t@)
}

/// The views of a sequence of directives.
pub open spec fn directives_view(ds: Seq<Directive>) -> Seq<DirectiveV> {
    ds.map_values(|d: Directive| d@)
}

} // verus!
