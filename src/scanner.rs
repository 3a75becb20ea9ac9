//! The single-pass state machine over the characters of a declaration.
//!
//! Every character moves the scanner from one state to the next by
//! `step_spec`. Brackets open and close a section (`[...]`), parentheses an
//! attribute list inside a section (`(...)`), and `$` outside any section
//! starts the parameter's name, which runs up to `=` or to the end of the
//! input. After that `=` comes the default-value literal. Before the name, a
//! `#` outside any section opens a help comment (as in `<# ... #>`), which
//! runs up to the next `#>`.
use vstd::prelude::*;
use crate::data_type::{DATA_TYPE, resolve, resolve_spec};
use crate::text::{eq_ignore_case, is_alnum, is_alnum_char, str_eq_ignore_case};

verus! {

/// Where the scanner stands relative to the parameter's name.
#[derive(Clone, Copy, Debug, PartialEq, Eq, Structural)]
pub enum Phase {
    /// No `$` has been seen outside a section yet.
    Before,
    /// Inside the name that follows `$`.
    Name,
    /// After the `=` that ends the name, inside the default-value literal.
    Default,
}

/// The state of the scanner, as mathematical values.
pub struct ScanModel {
    /// A `$` occurred somewhere in the input, inside a section or not.
    pub seen_dollar: bool,
    /// A structural error was met; the state no longer changes but for
    /// `seen_dollar`.
    pub failed: bool,
    pub phase: Phase,
    /// Inside a help comment.
    pub in_comment: bool,
    /// The characters of the current help comment so far.
    pub help_buf: Seq<char>,
    /// The last complete help comment.
    pub help: Option<Seq<char>>,
    /// Inside `[...]`.
    pub in_section: bool,
    /// Inside `(...)` within a section.
    pub in_subsection: bool,
    /// The current section has had an attribute list.
    pub section_has_sub: bool,
    /// Letters and digits of the current section, outside its attribute list.
    pub section_buf: Seq<char>,
    /// The current attribute list belongs to a `Parameter` section.
    pub attr_mode: bool,
    /// The key of the current attribute pair.
    pub key: Seq<char>,
    /// An `=` has followed the key of the current attribute pair.
    pub in_value: bool,
    /// The value of the current attribute pair.
    pub value: Seq<char>,
    pub name: Seq<char>,
    pub default_buf: Seq<char>,
    /// A `$` stood before the default literal, as in `$true`.
    pub default_sigil: bool,
    pub data_type: DATA_TYPE,
    pub mandatory: bool,
    pub set_name: Option<Seq<char>>,
}

/// The state before the first character.
pub open spec fn initial() -> ScanModel {
    ScanModel {
        seen_dollar: false,
        failed: false,
        phase: Phase::Before,
        in_comment: false,
        help_buf: Seq::empty(),
        help: None,
        in_section: false,
        in_subsection: false,
        section_has_sub: false,
        section_buf: Seq::empty(),
        attr_mode: false,
        key: Seq::empty(),
        in_value: false,
        value: Seq::empty(),
        name: Seq::empty(),
        default_buf: Seq::empty(),
        default_sigil: false,
        data_type: DATA_TYPE::NONE,
        mandatory: false,
        set_name: None,
    }
}

pub open spec fn fail(s: ScanModel) -> ScanModel {
    ScanModel { failed: true, ..s }
}

/// Applies the attribute pair just ended by `,` or `)`. Only pairs inside a
/// `Parameter(...)` list count: `Mandatory` (alone, or `=true` / `=false`)
/// and `ParameterSetName=value`. Other keys are ignored; a `Mandatory` value
/// that is not a boolean is an error.
pub open spec fn apply_attribute(s: ScanModel) -> ScanModel {
    if !s.attr_mode {
        s
    } else if eq_ignore_case(s.key, "mandatory"@) {
        if !s.in_value {
            ScanModel { mandatory: true, ..s }
        } else if eq_ignore_case(s.value, "true"@) {
            ScanModel { mandatory: true, ..s }
        } else if eq_ignore_case(s.value, "false"@) {
            ScanModel { mandatory: false, ..s }
        } else {
            fail(s)
        }
    } else if eq_ignore_case(s.key, "parametersetname"@) && s.in_value {
        ScanModel { set_name: Some(s.value), ..s }
    } else {
        s
    }
}

/// Ends the current attribute pair and starts an empty one.
pub open spec fn end_attribute(s: ScanModel) -> ScanModel {
    let a = apply_attribute(s);
    ScanModel { key: Seq::empty(), value: Seq::empty(), in_value: false, ..a }
}

/// A step before the name: sections, attribute lists and `$`.
pub open spec fn step_before(s: ScanModel, c: char) -> ScanModel {
    if s.in_comment {
        if c == '>' && s.help_buf.len() > 0 && s.help_buf.last() == '#' {
            ScanModel { in_comment: false, help: Some(s.help_buf.drop_last()), ..s }
        } else {
            ScanModel { help_buf: s.help_buf.push(c), ..s }
        }
    } else if is_alnum(c) {
        if s.in_subsection {
            if s.in_value {
                ScanModel { value: s.value.push(c), ..s }
            } else {
                ScanModel { key: s.key.push(c), ..s }
            }
        } else if s.in_section {
            ScanModel { section_buf: s.section_buf.push(c), ..s }
        } else {
            s
        }
    } else if c == '[' {
        if s.in_section {
            fail(s)
        } else {
            ScanModel {
                in_section: true,
                section_has_sub: false,
                section_buf: Seq::empty(),
                ..s
            }
        }
    } else if c == ']' {
        if !s.in_section || s.in_subsection {
            fail(s)
        } else if !s.section_has_sub && !eq_ignore_case(s.section_buf, "parameter"@) {
            ScanModel { in_section: false, data_type: resolve_spec(s.section_buf), ..s }
        } else {
            ScanModel { in_section: false, ..s }
        }
    } else if c == '(' {
        if !s.in_section || s.in_subsection {
            fail(s)
        } else {
            ScanModel {
                in_subsection: true,
                section_has_sub: true,
                attr_mode: eq_ignore_case(s.section_buf, "parameter"@),
                key: Seq::empty(),
                value: Seq::empty(),
                in_value: false,
                ..s
            }
        }
    } else if c == ')' {
        if !s.in_subsection {
            fail(s)
        } else {
            ScanModel { in_subsection: false, ..end_attribute(s) }
        }
    } else if c == ',' {
        if s.in_subsection {
            end_attribute(s)
        } else {
            s
        }
    } else if c == '=' {
        if s.in_subsection && !s.in_value && s.key.len() > 0 {
            ScanModel { in_value: true, ..s }
        } else {
            fail(s)
        }
    } else if c == '$' {
        if s.in_section {
            s
        } else {
            ScanModel { phase: Phase::Name, ..s }
        }
    } else if c == '#' {
        if s.in_section {
            s
        } else {
            ScanModel { in_comment: true, help_buf: Seq::empty(), ..s }
        }
    } else {
        s
    }
}

/// Characters that only make sense before the name.
pub open spec fn is_scope_char(c: char) -> bool {
    c == '[' || c == ']' || c == '(' || c == ')'
}

/// A step inside the name: letters and digits extend it, `=` ends it.
pub open spec fn step_name(s: ScanModel, c: char) -> ScanModel {
    if is_alnum(c) {
        ScanModel { name: s.name.push(c), ..s }
    } else if c == '=' {
        if s.name.len() == 0 {
            fail(s)
        } else {
            ScanModel { phase: Phase::Default, ..s }
        }
    } else if is_scope_char(c) || c == '$' {
        fail(s)
    } else {
        s
    }
}

/// A step inside the default value: letters and digits extend it, one `$`
/// may precede them (as in `$true`), and any other character is an error.
pub open spec fn step_default(s: ScanModel, c: char) -> ScanModel {
    if is_alnum(c) {
        ScanModel { default_buf: s.default_buf.push(c), ..s }
    } else if c == '$' && s.default_buf.len() == 0 && !s.default_sigil {
        ScanModel { default_sigil: true, ..s }
    } else {
        fail(s)
    }
}

/// One step of the scanner on a character that is not whitespace.
pub open spec fn step_spec(s0: ScanModel, c: char) -> ScanModel {
    let s = ScanModel { seen_dollar: s0.seen_dollar || c == '$', ..s0 };
    if s.failed {
        s
    } else {
        match s.phase {
            Phase::Before => step_before(s, c),
            Phase::Name => step_name(s, c),
            Phase::Default => step_default(s, c),
        }
    }
}

/// The state reached from `st` after the characters of `cs`, in order.
pub open spec fn run_from(st: ScanModel, cs: Seq<char>) -> ScanModel
    decreases cs.len(),
{
    if cs.len() == 0 {
        st
    } else {
        step_spec(run_from(st, cs.drop_last()), cs.last())
    }
}

/// The executable scanner.
pub struct Scanner {
    pub seen_dollar: bool,
    pub failed: bool,
    pub phase: Phase,
    pub in_comment: bool,
    pub help_buf: String,
    pub help: Option<String>,
    pub in_section: bool,
    pub in_subsection: bool,
    pub section_has_sub: bool,
    pub section_buf: String,
    pub attr_mode: bool,
    pub key: String,
    pub in_value: bool,
    pub value: String,
    pub name: String,
    pub default_buf: String,
    pub default_sigil: bool,
    pub data_type: DATA_TYPE,
    pub mandatory: bool,
    pub set_name: Option<String>,
}

impl View for Scanner {
    type V = ScanModel;

    open spec fn view(&self) -> ScanModel {
        ScanModel {
            seen_dollar: self.seen_dollar,
            failed: self.failed,
            phase: self.phase,
            in_comment: self.in_comment,
            help_buf: self.help_buf@,
            help: crate::parameter::opt_view(self.help),
            in_section: self.in_section,
            in_subsection: self.in_subsection,
            section_has_sub: self.section_has_sub,
            section_buf: self.section_buf@,
            attr_mode: self.attr_mode,
            key: self.key@,
            in_value: self.in_value,
            value: self.value@,
            name: self.name@,
            default_buf: self.default_buf@,
            default_sigil: self.default_sigil,
            data_type: self.data_type,
            mandatory: self.mandatory,
            set_name: crate::parameter::opt_view(self.set_name),
        }
    }
}

impl Scanner {
    pub fn new() -> (r: Self)
        ensures
            r@ == initial(),
    {
        Scanner {
            seen_dollar: false,
            failed: false,
            phase: Phase::Before,
            in_comment: false,
            help_buf: String::new(),
            help: None,
            in_section: false,
            in_subsection: false,
            section_has_sub: false,
            section_buf: String::new(),
            attr_mode: false,
            key: String::new(),
            in_value: false,
            value: String::new(),
            name: String::new(),
            default_buf: String::new(),
            default_sigil: false,
            data_type: DATA_TYPE::NONE,
            mandatory: false,
            set_name: None,
        }
    }

    fn apply_attribute(&mut self)
        ensures
            final(self)@ == apply_attribute(old(self)@),
    {
        if !self.attr_mode {
        } else if str_eq_ignore_case(self.key.as_str(), "mandatory") {
            if !self.in_value {
                self.mandatory = true;
            } else if str_eq_ignore_case(self.value.as_str(), "true") {
                self.mandatory = true;
            } else if str_eq_ignore_case(self.value.as_str(), "false") {
                self.mandatory = false;
            } else {
                self.failed = true;
            }
        } else if str_eq_ignore_case(self.key.as_str(), "parametersetname") && self.in_value {
            self.set_name = Some(self.value.clone());
        }
    }

    fn end_attribute(&mut self)
        ensures
            final(self)@ == end_attribute(old(self)@),
    {
        self.apply_attribute();
        self.key = String::new();
        self.value = String::new();
        self.in_value = false;
    }

    fn step_comment(&mut self, c: char)
        requires
            old(self).in_comment,
        ensures
            final(self)@ == step_before(old(self)@, c),
    {
        let n = self.help_buf.unicode_len();
        if c == '>' && n > 0 && self.help_buf.as_str().get_char(n - 1) == '#' {
            let text = self.help_buf.as_str().substring_char(0, n - 1);
            proof {
                assert(text@ =~= self.help_buf@.drop_last());
            }
            self.in_comment = false;
            self.help = Some(String::from_str(text));
        } else {
            self.help_buf.push(c);
        }
    }

    fn step_before(&mut self, c: char)
        ensures
            final(self)@ == step_before(old(self)@, c),
    {
        if self.in_comment {
            self.step_comment(c);
        } else if is_alnum_char(c) {
            if self.in_subsection {
                if self.in_value {
                    self.value.push(c);
                } else {
                    self.key.push(c);
                }
            } else if self.in_section {
                self.section_buf.push(c);
            }
        } else if c == '[' {
            if self.in_section {
                self.failed = true;
            } else {
                self.in_section = true;
                self.section_has_sub = false;
                self.section_buf = String::new();
            }
        } else if c == ']' {
            if !self.in_section || self.in_subsection {
                self.failed = true;
            } else if !self.section_has_sub && !str_eq_ignore_case(
                self.section_buf.as_str(),
                "parameter",
            ) {
                self.in_section = false;
                self.data_type = resolve(self.section_buf.as_str());
            } else {
                self.in_section = false;
            }
        } else if c == '(' {
            if !self.in_section || self.in_subsection {
                self.failed = true;
            } else {
                self.in_subsection = true;
                self.section_has_sub = true;
                self.attr_mode = str_eq_ignore_case(self.section_buf.as_str(), "parameter");
                self.key = String::new();
                self.value = String::new();
                self.in_value = false;
            }
        } else if c == ')' {
            if !self.in_subsection {
                self.failed = true;
            } else {
                self.end_attribute();
                self.in_subsection = false;
            }
        } else if c == ',' {
            if self.in_subsection {
                self.end_attribute();
            }
        } else if c == '=' {
            if self.in_subsection && !self.in_value && self.key.unicode_len() > 0 {
                self.in_value = true;
            } else {
                self.failed = true;
            }
        } else if c == '$' {
            if !self.in_section {
                self.phase = Phase::Name;
            }
        } else if c == '#' {
            if !self.in_section {
                self.in_comment = true;
                self.help_buf = String::new();
            }
        }
    }

    fn step_name(&mut self, c: char)
        ensures
            final(self)@ == step_name(old(self)@, c),
    {
        if is_alnum_char(c) {
            self.name.push(c);
        } else if c == '=' {
            if self.name.unicode_len() == 0 {
                self.failed = true;
            } else {
                self.phase = Phase::Default;
            }
        } else if c == '[' || c == ']' || c == '(' || c == ')' || c == '$' {
            self.failed = true;
        }
    }

    fn step_default(&mut self, c: char)
        ensures
            final(self)@ == step_default(old(self)@, c),
    {
        if is_alnum_char(c) {
            self.default_buf.push(c);
        } else if c == '$' && self.default_buf.unicode_len() == 0 && !self.default_sigil {
            self.default_sigil = true;
        } else {
            self.failed = true;
        }
    }

    /// Feeds one character that is not whitespace to the scanner.
    pub fn step(&mut self, c: char)
        ensures
            final(self)@ == step_spec(old(self)@, c),
    {
        if c == '$' {
            self.seen_dollar = true;
        }
        if !self.failed {
            match self.phase {
                Phase::Before => self.step_before(c),
                Phase::Name => self.step_name(c),
                Phase::Default => self.step_default(c),
            }
        }
    }
}

} // verus!
