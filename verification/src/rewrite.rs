//! The token-stream rewriter: a three-state machine that recognizes a marked
//! fenced region, renders its text, and emits directives saying which tokens
//! to keep and which to replace.
use vstd::prelude::*;

use crate::render::{render_diagram, svg_of, RenderError};
use crate::settings::{Settings, SettingsV};
use crate::strutil::str_eq;
use crate::token::{
    directives_view, is_marked_end, is_marked_start, tokens_view, Directive, DirectiveV, Token,
    TokenV,
};

verus! {

/// Where the rewriter stands while scanning one section's token stream.
#[derive(Clone, Copy)]
pub enum RewriteState {
    /// Outside any marked region.
    Idle,
    /// A marked start boundary was seen; the region's text is expected next.
    Capturing,
    /// The region's text was rendered; the matching end boundary is expected.
    AwaitingClose,
}

/// What one step of the machine asks its caller to emit.
#[derive(Clone, Copy)]
pub enum StepAction {
    /// Pass the incoming token through unchanged.
    Pass,
    /// Emit a generic block start in place of the marked start boundary.
    Open,
    /// Render the incoming text token and emit the markup in its place.
    Render,
    /// Emit a generic block end in place of the marked end boundary.
    Close,
}

/// The machine's transition: where one token moves it. Any token that breaks
/// the expected start-text-end shape falls back to `Idle`.
pub open spec fn spec_next_state(st: RewriteState, t: TokenV) -> RewriteState {
    match st {
        RewriteState::Idle => if is_marked_start(t) {
            RewriteState::Capturing
        } else {
            RewriteState::Idle
        },
        RewriteState::Capturing => match t {
            TokenV::Text(_) => RewriteState::AwaitingClose,
            _ => RewriteState::Idle,
        },
        RewriteState::AwaitingClose => RewriteState::Idle,
    }
}

/// What the machine emits at one token. Tokens that break the expected shape
/// pass through unmatched.
pub open spec fn spec_action(st: RewriteState, t: TokenV) -> StepAction {
    match st {
        RewriteState::Idle => if is_marked_start(t) {
            StepAction::Open
        } else {
            StepAction::Pass
        },
        RewriteState::Capturing => match t {
            TokenV::Text(_) => StepAction::Render,
            _ => StepAction::Pass,
        },
        RewriteState::AwaitingClose => if is_marked_end(t) {
            StepAction::Close
        } else {
            StepAction::Pass
        },
    }
}

/// The directive one step of the machine produces, with rendering resolved:
/// the markup for a captured text is the renderer's output for it.
pub open spec fn spec_directive(st: RewriteState, t: TokenV, s: SettingsV) -> DirectiveV {
    match st {
        RewriteState::Idle => if is_marked_start(t) {
            DirectiveV::OpenBlock
        } else {
            DirectiveV::Keep
        },
        RewriteState::Capturing => match t {
            TokenV::Text(content) => DirectiveV::Markup(svg_of(content, s)),
            _ => DirectiveV::Keep,
        },
        RewriteState::AwaitingClose => if is_marked_end(t) {
            DirectiveV::CloseBlock
        } else {
            DirectiveV::Keep
        },
    }
}

/// One step of the state machine, exactly as specified: the next state and
/// the action for the incoming token.
pub fn rewrite_step(st: RewriteState, t: &Token) -> (r: (RewriteState, StepAction))
    ensures
        r.0 == spec_next_state(st, t@),
        r.1 == spec_action(st, t@),
{
    match st {
        RewriteState::Idle => match t {
            Token::StartBlock(f) => {
                if f.fenced && f.borrowed && str_eq(f.tag.as_str(), "bob") {
                    (RewriteState::Capturing, StepAction::Open)
                } else {
                    (RewriteState::Idle, StepAction::Pass)
                }
            },
            _ => (RewriteState::Idle, StepAction::Pass),
        },
        RewriteState::Capturing => match t {
            Token::Text(_) => (RewriteState::AwaitingClose, StepAction::Render),
            _ => (RewriteState::Idle, StepAction::Pass),
        },
        RewriteState::AwaitingClose => match t {
            Token::EndBlock(f) => {
                if f.fenced && f.borrowed && str_eq(f.tag.as_str(), "bob") {
                    (RewriteState::Idle, StepAction::Close)
                } else {
                    (RewriteState::Idle, StepAction::Pass)
                }
            },
            _ => (RewriteState::Idle, StepAction::Pass),
        },
    }
}

/// The state the machine reaches after scanning a whole token sequence.
pub open spec fn spec_state_after(st: RewriteState, toks: Seq<TokenV>) -> RewriteState
    decreases toks.len(),
{
    if toks.len() == 0 {
        st
    } else {
        spec_state_after(spec_next_state(st, toks[0]), toks.drop_first())
    }
}

/// The directive sequence the machine produces for a token sequence, started
/// in state `st`: one directive per token, in order.
pub open spec fn spec_rewrite_from(st: RewriteState, toks: Seq<TokenV>, s: SettingsV) -> Seq<
    DirectiveV,
>
    decreases toks.len(),
{
    if toks.len() == 0 {
        Seq::empty()
    } else {
        seq![spec_directive(st, toks[0], s)] + spec_rewrite_from(
            spec_next_state(st, toks[0]),
            toks.drop_first(),
            s,
        )
    }
}

/// The rewrite of one section's token sequence, started outside any region.
pub open spec fn spec_rewrite(toks: Seq<TokenV>, s: SettingsV) -> Seq<DirectiveV> {
    spec_rewrite_from(RewriteState::Idle, toks, s)
}

/// The rewriter emits exactly one directive per token.
pub proof fn lemma_rewrite_from_len(st: RewriteState, toks: Seq<TokenV>, s: SettingsV)
    ensures
        spec_rewrite_from(st, toks, s).len() == toks.len(),
    decreases toks.len(),
{
    if toks.len() > 0 {
        lemma_rewrite_from_len(spec_next_state(st, toks[0]), toks.drop_first(), s);
    }
}

proof fn lemma_rewrite_from_unfold(st: RewriteState, toks: Seq<TokenV>, i: int, s: SettingsV)
    requires
        0 <= i < toks.len(),
    ensures
        spec_rewrite_from(st, toks.skip(i), s) == seq![spec_directive(st, toks[i], s)]
            + spec_rewrite_from(spec_next_state(st, toks[i]), toks.skip(i + 1), s),
{
    assert(toks.skip(i)[0] == toks[i]);
    assert(toks.skip(i).drop_first() =~= toks.skip(i + 1));
}

/// Run the state machine over a section's whole token sequence, rendering
/// each captured region, and return the directive per token. A render failure
/// would abort the whole section; with the present renderer every region
/// renders, so the rewrite is always produced.
pub fn rewrite_tokens(tokens: &Vec<Token>, settings: &Settings) -> (r: Result<
    Vec<Directive>,
    RenderError,
>)
    ensures
        r matches Ok(ds) && directives_view(ds@) == spec_rewrite(
            tokens_view(tokens@),
            settings@,
        ),
{
    let ghost toks = tokens_view(tokens@);
    let mut out: Vec<Directive> = Vec::new();
    let mut st = RewriteState::Idle;
    proof {
        assert(toks.skip(0) =~= toks);
    }
    let mut i: usize = 0;
    while i < tokens.len()
        invariant
            i <= tokens.len(),
            toks == tokens_view(tokens@),
            toks.len() == tokens@.len(),
            directives_view(out@) + spec_rewrite_from(st, toks.skip(i as int), settings@)
                == spec_rewrite(toks, settings@),
        decreases tokens.len() - i,
    {
        proof {
            lemma_rewrite_from_unfold(st, toks, i as int, settings@);
            assert(toks[i as int] == tokens@[i as int]@);
        }
        let t = &tokens[i];
        let (next, action) = rewrite_step(st, t);
        let d: Directive = match action {
            StepAction::Pass => Directive::Keep,
            StepAction::Open => Directive::OpenBlock,
            StepAction::Render => match t {
                Token::Text(content) => match render_diagram(content, settings) {
                    Ok(svg) => Directive::Markup(svg),
                    Err(e) => {
                        proof {
                            assert(false);
                        }
                        return Err(e);
                    },
                },
                _ => {
                    proof {
                        assert(false);
                    }
                    return Err(RenderError { detail: String::new() });
                },
            },
            StepAction::Close => Directive::CloseBlock,
        };
        let ghost prev_out = out@;
        out.push(d);
        proof {
            assert(directives_view(out@) =~= directives_view(prev_out).push(d@));
            assert(directives_view(out@) + spec_rewrite_from(
                spec_next_state(st, toks[i as int]),
                toks.skip(i as int + 1),
                settings@,
            ) =~= directives_view(prev_out) + spec_rewrite_from(st, toks.skip(i as int), settings@));
        }
        st = next;
        i = i + 1;
    }
    proof {
        assert(toks.skip(toks.len() as int) =~= Seq::<TokenV>::empty());
        assert(directives_view(out@) + Seq::<DirectiveV>::empty() =~= directives_view(out@));
    }
    Ok(out)
}

proof fn lemma_no_marker_stays_idle(toks: Seq<TokenV>)
    requires
        forall|i: int| 0 <= i < toks.len() ==> !is_marked_start(toks[i]),
    ensures
        spec_state_after(RewriteState::Idle, toks) == RewriteState::Idle,
    decreases toks.len(),
{
    if toks.len() > 0 {
        assert(!is_marked_start(toks[0]));
        assert forall|i: int| 0 <= i < toks.drop_first().len() implies !is_marked_start(
            toks.drop_first()[i],
        ) by {
            assert(toks.drop_first()[i] == toks[i + 1]);
        }
        lemma_no_marker_stays_idle(toks.drop_first());
    }
}

/// A token stream holding no marked start boundary is left entirely
/// unchanged: the rewriter keeps every token where it stands.
pub proof fn lemma_no_marker_keeps_all(toks: Seq<TokenV>, s: SettingsV)
    requires
        forall|i: int| 0 <= i < toks.len() ==> !is_marked_start(toks[i]),
    ensures
        spec_rewrite(toks, s) == Seq::new(toks.len(), |i: int| DirectiveV::Keep),
    decreases toks.len(),
{
    if toks.len() == 0 {
        assert(spec_rewrite(toks, s) =~= Seq::new(toks.len(), |i: int| DirectiveV::Keep));
    } else {
        assert(!is_marked_start(toks[0]));
        assert(spec_directive(RewriteState::Idle, toks[0], s) == DirectiveV::Keep);
        assert(spec_next_state(RewriteState::Idle, toks[0]) == RewriteState::Idle);
        assert forall|i: int| 0 <= i < toks.drop_first().len() implies !is_marked_start(
            toks.drop_first()[i],
        ) by {
            assert(toks.drop_first()[i] == toks[i + 1]);
        }
        lemma_no_marker_keeps_all(toks.drop_first(), s);
        assert(spec_rewrite(toks, s) =~= Seq::new(toks.len(), |i: int| DirectiveV::Keep));
    }
}

/// The state after scanning a concatenation: the second part is scanned from
/// the state the first part ends in.
pub proof fn lemma_state_after_concat(st: RewriteState, a: Seq<TokenV>, b: Seq<TokenV>)
    ensures
        spec_state_after(st, a + b) == spec_state_after(spec_state_after(st, a), b),
    decreases a.len(),
{
    if a.len() == 0 {
        assert(a + b =~= b);
    } else {
        assert((a + b)[0] == a[0]);
        assert((a + b).drop_first() =~= a.drop_first() + b);
        lemma_state_after_concat(spec_next_state(st, a[0]), a.drop_first(), b);
    }
}

/// Rewriting a concatenation splits at the seam: the second part is rewritten
/// from the state the first part ends in.
pub proof fn lemma_rewrite_concat(st: RewriteState, a: Seq<TokenV>, b: Seq<TokenV>, s: SettingsV)
    ensures
        spec_rewrite_from(st, a + b, s) == spec_rewrite_from(st, a, s) + spec_rewrite_from(
            spec_state_after(st, a),
            b,
            s,
        ),
    decreases a.len(),
{
    if a.len() == 0 {
        assert(a + b =~= b);
        assert(spec_rewrite_from(st, a, s) + spec_rewrite_from(st, b, s) =~= spec_rewrite_from(
            st,
            b,
            s,
        ));
    } else {
        assert((a + b)[0] == a[0]);
        assert((a + b).drop_first() =~= a.drop_first() + b);
        let next = spec_next_state(st, a[0]);
        lemma_rewrite_concat(next, a.drop_first(), b, s);
        let d0 = seq![spec_directive(st, a[0], s)];
        assert(d0 + (spec_rewrite_from(next, a.drop_first(), s) + spec_rewrite_from(
            spec_state_after(st, a),
            b,
            s,
        )) =~= (d0 + spec_rewrite_from(next, a.drop_first(), s)) + spec_rewrite_from(
            spec_state_after(st, a),
            b,
            s,
        ));
    }
}

/// The directives for one well-formed marked region alone: a generic block
/// start, exactly the rendered markup for the region's text, and a generic
/// block end.
pub proof fn lemma_region_alone(start: TokenV, body: Seq<char>, end: TokenV, s: SettingsV)
    requires
        is_marked_start(start),
        is_marked_end(end),
    ensures
        spec_rewrite(seq![start, TokenV::Text(body), end], s) == seq![
            DirectiveV::OpenBlock,
            DirectiveV::Markup(svg_of(body, s)),
            DirectiveV::CloseBlock,
        ],
        spec_state_after(RewriteState::Idle, seq![start, TokenV::Text(body), end])
            == RewriteState::Idle,
{
    let mid = seq![start, TokenV::Text(body), end];
    let text = TokenV::Text(body);
    assert(mid.drop_first() =~= seq![text, end]);
    assert(seq![text, end].drop_first() =~= seq![end]);
    assert(seq![end].drop_first() =~= Seq::<TokenV>::empty());
    assert(mid[0] == start);
    assert(seq![text, end][0] == text);
    assert(seq![end][0] == end);
    assert(spec_next_state(RewriteState::Idle, start) == RewriteState::Capturing);
    assert(spec_next_state(RewriteState::Capturing, text) == RewriteState::AwaitingClose);
    assert(spec_next_state(RewriteState::AwaitingClose, end) == RewriteState::Idle);
    assert(spec_state_after(RewriteState::Idle, Seq::<TokenV>::empty()) == RewriteState::Idle);
    assert(spec_state_after(RewriteState::AwaitingClose, seq![end]) == RewriteState::Idle);
    assert(spec_state_after(RewriteState::Capturing, seq![text, end]) == RewriteState::Idle);
    assert(spec_state_after(RewriteState::Idle, mid) == RewriteState::Idle);
    assert(spec_directive(RewriteState::Idle, start, s) == DirectiveV::OpenBlock);
    assert(spec_directive(RewriteState::Capturing, text, s) == DirectiveV::Markup(
        svg_of(body, s),
    ));
    assert(spec_directive(RewriteState::AwaitingClose, end, s) == DirectiveV::CloseBlock);
    assert(spec_rewrite_from(RewriteState::Idle, Seq::<TokenV>::empty(), s)
        =~= Seq::<DirectiveV>::empty());
    assert(spec_rewrite_from(RewriteState::AwaitingClose, seq![end], s) =~= seq![
        DirectiveV::CloseBlock,
    ]);
    assert(spec_rewrite_from(RewriteState::Capturing, seq![text, end], s) =~= seq![
        DirectiveV::Markup(svg_of(body, s)),
        DirectiveV::CloseBlock,
    ]);
    assert(spec_rewrite(mid, s) =~= seq![
        DirectiveV::OpenBlock,
        DirectiveV::Markup(svg_of(body, s)),
        DirectiveV::CloseBlock,
    ]);
}

/// A section whose token stream holds exactly one well-formed marked region —
/// a marked start boundary, one text, the matching end boundary — between
/// marker-free surroundings is rewritten to: every token before the region
/// kept, a generic block start, one markup token carrying exactly the
/// renderer's output for the region's text, a generic block end, and every
/// token after the region kept.
pub proof fn lemma_single_region_rewrite(
    pre: Seq<TokenV>,
    start: TokenV,
    body: Seq<char>,
    end: TokenV,
    post: Seq<TokenV>,
    s: SettingsV,
)
    requires
        forall|i: int| 0 <= i < pre.len() ==> !is_marked_start(pre[i]),
        forall|i: int| 0 <= i < post.len() ==> !is_marked_start(post[i]),
        is_marked_start(start),
        is_marked_end(end),
    ensures
        spec_rewrite(pre + seq![start, TokenV::Text(body), end] + post, s) == Seq::new(
            pre.len(),
            |i: int| DirectiveV::Keep,
        ) + seq![
            DirectiveV::OpenBlock,
            DirectiveV::Markup(svg_of(body, s)),
            DirectiveV::CloseBlock,
        ] + Seq::new(post.len(), |i: int| DirectiveV::Keep),
{
    let mid = seq![start, TokenV::Text(body), end];
    let idle = RewriteState::Idle;
    lemma_rewrite_concat(idle, pre + mid, post, s);
    lemma_rewrite_concat(idle, pre, mid, s);
    lemma_no_marker_stays_idle(pre);
    lemma_no_marker_keeps_all(pre, s);
    lemma_region_alone(start, body, end, s);
    lemma_state_after_concat(idle, pre, mid);
    lemma_no_marker_keeps_all(post, s);
}

} // verus!
