//! The document walker: visit every section in document order, rewrite each
//! one that processes cleanly, and leave a failed section untouched. One
//! section's failure never prevents visiting the rest, and the walk itself
//! cannot fail.
use vstd::prelude::*;

use crate::section::{process_code_blocks, spec_processed_text, ProcessError, Section};
use crate::settings::{Settings, SettingsV};

verus! {

/// The document as this core reads it: its sections in walk order. The host's
/// nesting is flattened by the caller before the walk and is opaque here; the
/// walk preserves order and never adds or removes a section.
pub struct Document {
    pub sections: Vec<Section>,
}

/// What happened at one section: a trace of success, or the failure detail.
/// The walk returns one event per section, in walk order, for the caller to
/// log; diagnostics never enter the document itself.
pub enum WalkEvent {
    Processed { name: String },
    Failed { name: String, error: ProcessError },
}

/// Which section an event speaks of.
pub open spec fn event_name(e: WalkEvent) -> Seq<char> {
    match e {
        WalkEvent::Processed { name } => name@,
        WalkEvent::Failed { name, .. } => name@,
    }
}

/// Whether an event records a failure.
pub open spec fn is_failed(e: WalkEvent) -> bool {
    e matches WalkEvent::Failed { .. }
}

/// What one visit guarantees for one section: its name is kept, the returned
/// event names it, on success its text is exactly the processor's output for
/// its old text, and on failure its text is byte-for-byte what it was.
pub open spec fn section_visited(
    oldsec: Section,
    newsec: Section,
    e: WalkEvent,
    s: SettingsV,
) -> bool {
    &&& newsec.name@ == oldsec.name@
    &&& event_name(e) == oldsec.name@
    &&& (!is_failed(e) ==> newsec.raw_text@ == spec_processed_text(oldsec.raw_text@, s))
    &&& (is_failed(e) ==> newsec.raw_text@ == oldsec.raw_text@)
}

/// Visit every section in order and rewrite it in place on success. A section
/// whose processing fails keeps its text byte-for-byte; every other section
/// is still visited and rewritten on its own account. Returns one event per
/// section, naming it and recording success or the failure detail.
pub fn walk(doc: &mut Document, settings: &Settings) -> (events: Vec<WalkEvent>)
    ensures
        final(doc).sections@.len() == old(doc).sections@.len(),
        events@.len() == old(doc).sections@.len(),
        forall|i: int|
            0 <= i < old(doc).sections@.len() ==> #[trigger] section_visited(
                old(doc).sections@[i],
                final(doc).sections@[i],
                events@[i],
                settings@,
            ),
{
    let mut new_sections: Vec<Section> = Vec::new();
    let mut events: Vec<WalkEvent> = Vec::new();
    let mut i: usize = 0;
    while i < doc.sections.len()
        invariant
            doc.sections@ == old(doc).sections@,
            i <= doc.sections@.len(),
            new_sections@.len() == i,
            events@.len() == i,
            forall|j: int|
                0 <= j < i ==> #[trigger] section_visited(
                    doc.sections@[j],
                    new_sections@[j],
                    events@[j],
                    settings@,
                ),
        decreases doc.sections@.len() - i,
    {
        let sec = &doc.sections[i];
        let ghost prev_ns = new_sections@;
        let ghost prev_ev = events@;
        match process_code_blocks(sec, settings) {
            Ok(text) => {
                new_sections.push(Section { name: sec.name.clone(), raw_text: text });
                events.push(WalkEvent::Processed { name: sec.name.clone() });
            },
            Err(error) => {
                new_sections.push(
                    Section { name: sec.name.clone(), raw_text: sec.raw_text.clone() },
                );
                events.push(WalkEvent::Failed { name: sec.name.clone(), error });
            },
        }
        proof {
            assert forall|j: int| 0 <= j < i + 1 implies #[trigger] section_visited(
                doc.sections@[j],
                new_sections@[j],
                events@[j],
                settings@,
            ) by {
                if j < i {
                    assert(new_sections@[j] == prev_ns[j]);
                    assert(events@[j] == prev_ev[j]);
                    assert(section_visited(doc.sections@[j], prev_ns[j], prev_ev[j], settings@));
                } else {
                    assert(section_visited(
                        doc.sections@[j],
                        new_sections@[j],
                        events@[j],
                        settings@,
                    ));
                }
            }
        }
        i = i + 1;
    }
    doc.sections = new_sections;
    events
}

} // verus!
