use vstd::prelude::*;

use crate::text::{decimal, decimal_string};

verus! {

broadcast use vstd::string::group_string_axioms;

/// One section of a report template.
#[derive(Debug, Clone)]
pub struct TemplateSection {
    /// Heading of the section.
    pub title: String,
    /// What the model is to extract or write for this section.
    pub instruction: String,
    /// Layout of the section: "paragraph", "list" or "string".
    pub format: String,
    /// Pattern that each item of the section follows.
    pub item_format: Option<String>,
    /// Pattern used where `item_format` is absent.
    pub example_item_format: Option<String>,
}

/// A report template: a name, a description and its sections in order.
#[derive(Debug, Clone)]
pub struct Template {
    pub name: String,
    pub description: String,
    pub sections: Vec<TemplateSection>,
}

pub const NAME_EMPTY: &'static str = "Vorlagenname darf nicht leer sein";

pub const DESCRIPTION_EMPTY: &'static str = "Vorlagenbeschreibung darf nicht leer sein";

pub const NO_SECTIONS: &'static str = "Vorlage muss mindestens einen Abschnitt enthalten";

pub const SECTION_WORD: &'static str = "Abschnitt ";

pub const NO_TITLE: &'static str = " hat keinen Titel";

pub const SECTION_QUOTE: &'static str = "Abschnitt '";

pub const NO_INSTRUCTION: &'static str = "' hat keine Anweisung";

pub const BAD_FORMAT: &'static str = "' hat ein ungültiges Format '";

pub const ALLOWED_FORMATS: &'static str = "'. Erlaubt sind 'paragraph', 'list' oder 'string'";

pub const FORMAT_PARAGRAPH: &'static str = "paragraph";

pub const FORMAT_LIST: &'static str = "list";

pub const FORMAT_STRING: &'static str = "string";

pub const SKELETON_TITLE: &'static str = "# <Titel hier einfügen>\n\n";

pub const BOLD: &'static str = "**";

pub const HEADING_END: &'static str = "**\n\n";

pub const TITLE_INSTRUCTION: &'static str = "- **Für den Haupttitel (`# [KI-generierter Titel]`):** Analysiere das gesamte Transkript und erstelle einen kurzen, aussagekräftigen Titel für das Meeting.\n";

pub const SECTION_BULLET: &'static str = "- **Für den Abschnitt '";

pub const SECTION_BULLET_MID: &'static str = "'**: ";

pub const SECTION_BULLET_END: &'static str = ".\n";

pub const ITEM_BULLET: &'static str = "  - Elemente in diesem Abschnitt sollen folgendem Format folgen: `";

pub const ITEM_BULLET_END: &'static str = "`.\n";

/// Whether `f` names one of the three section layouts.
pub open spec fn format_allowed(f: Seq<char>) -> bool {
    f == FORMAT_PARAGRAPH@ || f == FORMAT_LIST@ || f == FORMAT_STRING@
}

/// A section with a title, an instruction and a known layout.
pub open spec fn section_ok(s: TemplateSection) -> bool {
    s.title@.len() > 0 && s.instruction@.len() > 0 && format_allowed(s.format@)
}

/// A template that may be used: name, description and at least one section, each of them
/// well formed.
pub open spec fn template_ok(t: Template) -> bool {
    &&& t.name@.len() > 0
    &&& t.description@.len() > 0
    &&& t.sections@.len() > 0
    &&& forall|i: int| 0 <= i < t.sections@.len() ==> section_ok(#[trigger] t.sections@[i])
}

/// The complaint about section `s`, found at position `i`.
pub open spec fn section_message(s: TemplateSection, i: nat) -> Seq<char> {
    if s.title@.len() == 0 {
        SECTION_WORD@ + decimal(i) + NO_TITLE@
    } else if s.instruction@.len() == 0 {
        SECTION_QUOTE@ + s.title@ + NO_INSTRUCTION@
    } else {
        SECTION_QUOTE@ + s.title@ + BAD_FORMAT@ + s.format@ + ALLOWED_FORMATS@
    }
}

/// `i` is the first section of `secs` that is not well formed.
pub open spec fn first_bad_section(secs: Seq<TemplateSection>, i: int) -> bool {
    &&& 0 <= i < secs.len()
    &&& !section_ok(secs[i])
    &&& forall|j: int| 0 <= j < i ==> section_ok(#[trigger] secs[j])
}

/// The markdown skeleton lines of the sections: each title in bold, then a blank line.
pub open spec fn section_headings(secs: Seq<TemplateSection>) -> Seq<char>
    decreases secs.len(),
{
    if secs.len() == 0 {
        Seq::empty()
    } else {
        section_headings(secs.drop_last()) + BOLD@ + secs.last().title@ + HEADING_END@
    }
}

/// The item pattern of a section: `item_format`, or else `example_item_format`.
pub open spec fn item_pattern(s: TemplateSection) -> Option<Seq<char>> {
    match s.item_format {
        Some(f) => Some(f@),
        None => match s.example_item_format {
            Some(f) => Some(f@),
            None => None,
        },
    }
}

/// The instruction lines of one section.
pub open spec fn section_lines(s: TemplateSection) -> Seq<char> {
    let head = SECTION_BULLET@ + s.title@ + SECTION_BULLET_MID@ + s.instruction@ + SECTION_BULLET_END@;
    match item_pattern(s) {
        Some(f) => head + ITEM_BULLET@ + f + ITEM_BULLET_END@,
        None => head,
    }
}

/// The instruction lines of all sections, in order.
pub open spec fn sections_lines(secs: Seq<TemplateSection>) -> Seq<char>
    decreases secs.len(),
{
    if secs.len() == 0 {
        Seq::empty()
    } else {
        sections_lines(secs.drop_last()) + section_lines(secs.last())
    }
}

/// The markdown skeleton of a template.
pub open spec fn skeleton_of(t: Template) -> Seq<char> {
    SKELETON_TITLE@ + section_headings(t.sections@)
}

/// The instruction block of a template.
pub open spec fn instructions_of(t: Template) -> Seq<char> {
    TITLE_INSTRUCTION@ + sections_lines(t.sections@)
}

fn is_allowed_format(f: &String) -> (r: bool)
    ensures
        r == format_allowed(f@),
{
    let p = String::from_str(FORMAT_PARAGRAPH);
    let l = String::from_str(FORMAT_LIST);
    let s = String::from_str(FORMAT_STRING);
    *f == p || *f == l || *f == s
}

/// Appends the instruction lines of `section` to `out`.
fn append_section_lines(out: &mut String, section: &TemplateSection)
    ensures
        final(out)@ == old(out)@ + section_lines(*section),
{
    out.append(SECTION_BULLET);
    out.append(section.title.as_str());
    out.append(SECTION_BULLET_MID);
    out.append(section.instruction.as_str());
    out.append(SECTION_BULLET_END);
    let pattern = match &section.item_format {
        Some(f) => Some(f),
        None => section.example_item_format.as_ref(),
    };
    match pattern {
        Some(f) => {
            out.append(ITEM_BULLET);
            out.append(f.as_str());
            out.append(ITEM_BULLET_END);
        },
        None => {},
    }
    assert(out@ =~= old(out)@ + section_lines(*section));
}

impl Template {
    /// Checks that the template may be used, and names the first defect otherwise.
    pub fn validate(&self) -> (r: Result<(), String>)
        ensures
            r is Ok <==> template_ok(*self),
            self.sections@.len() == 0 ==> r is Err,
            (exists|i: int|
                0 <= i < self.sections@.len() && !format_allowed(
                    (#[trigger] self.sections@[i]).format@,
                )) ==> r is Err,
            r matches Err(m) ==> if self.name@.len() == 0 {
                m@ == NAME_EMPTY@
            } else if self.description@.len() == 0 {
                m@ == DESCRIPTION_EMPTY@
            } else if self.sections@.len() == 0 {
                m@ == NO_SECTIONS@
            } else {
                exists|i: int|
                    #[trigger] first_bad_section(self.sections@, i) && m@ == section_message(
                        self.sections@[i],
                        i as nat,
                    )
            },
    {
        if self.name.as_str().is_empty() {
            return Err(String::from_str(NAME_EMPTY));
        }
        if self.description.as_str().is_empty() {
            return Err(String::from_str(DESCRIPTION_EMPTY));
        }
        if self.sections.len() == 0 {
            return Err(String::from_str(NO_SECTIONS));
        }
        let mut i: usize = 0;
        while i < self.sections.len()
            invariant
                i <= self.sections@.len(),
                self.name@.len() > 0,
                self.description@.len() > 0,
                self.sections@.len() > 0,
                forall|j: int| 0 <= j < i ==> section_ok(#[trigger] self.sections@[j]),
            decreases self.sections@.len() - i,
        {
            let section = &self.sections[i];
            if section.title.as_str().is_empty() {
                let mut m = String::from_str(SECTION_WORD);
                let n = decimal_string(i);
                m.append(n.as_str());
                m.append(NO_TITLE);
                assert(first_bad_section(self.sections@, i as int));
                assert(m@ =~= section_message(self.sections@[i as int], i as nat));
                return Err(m);
            }
            if section.instruction.as_str().is_empty() {
                let mut m = String::from_str(SECTION_QUOTE);
                m.append(section.title.as_str());
                m.append(NO_INSTRUCTION);
                assert(first_bad_section(self.sections@, i as int));
                assert(m@ =~= section_message(self.sections@[i as int], i as nat));
                return Err(m);
            }
            if !is_allowed_format(&section.format) {
                let mut m = String::from_str(SECTION_QUOTE);
                m.append(section.title.as_str());
                m.append(BAD_FORMAT);
                m.append(section.format.as_str());
                m.append(ALLOWED_FORMATS);
                assert(first_bad_section(self.sections@, i as int));
                assert(m@ =~= section_message(self.sections@[i as int], i as nat));
                return Err(m);
            }
            i += 1;
        }
        Ok(())
    }

    /// The markdown skeleton shown to the model: a title placeholder, then each section
    /// title in bold.
    pub fn to_markdown_structure(&self) -> (r: String)
        ensures
            r@ == skeleton_of(*self),
    {
        let mut markdown = String::from_str(SKELETON_TITLE);
        let mut i: usize = 0;
        while i < self.sections.len()
            invariant
                i <= self.sections@.len(),
                markdown@ == SKELETON_TITLE@ + section_headings(self.sections@.subrange(0, i as int)),
            decreases self.sections@.len() - i,
        {
            markdown.append(BOLD);
            markdown.append(self.sections[i].title.as_str());
            markdown.append(HEADING_END);
            assert(self.sections@.subrange(0, i + 1 as int).drop_last() =~= self.sections@.subrange(
                0,
                i as int,
            ));
            i += 1;
        }
        assert(self.sections@.subrange(0, i as int) =~= self.sections@);
        markdown
    }

    /// The instruction block for the model: one line for the main title, then one for
    /// each section, with the pattern its items follow where it has one.
    pub fn to_section_instructions(&self) -> (r: String)
        ensures
            r@ == instructions_of(*self),
    {
        let mut instructions = String::from_str(TITLE_INSTRUCTION);
        let mut i: usize = 0;
        while i < self.sections.len()
            invariant
                i <= self.sections@.len(),
                instructions@ == TITLE_INSTRUCTION@ + sections_lines(
                    self.sections@.subrange(0, i as int),
                ),
            decreases self.sections@.len() - i,
        {
            append_section_lines(&mut instructions, &self.sections[i]);
            proof {
                let sub = self.sections@.subrange(0, i + 1 as int);
                assert(sub.last() == self.sections@[i as int]);
            }
            assert(self.sections@.subrange(0, i + 1 as int).drop_last() =~= self.sections@.subrange(
                0,
                i as int,
            ));
            i += 1;
        }
        assert(self.sections@.subrange(0, i as int) =~= self.sections@);
        instructions
    }
}

} // verus!
