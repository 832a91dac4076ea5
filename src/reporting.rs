//! Reports produced during the validation phase of a project.
use vstd::prelude::*;
use vstd::string::*;

verus! {

/// The severity of a reported problem.
#[derive(Debug, PartialEq, Eq, Clone, Copy, Structural)]
pub enum ReportLevel {
    /// Generation is guaranteed to fail while this problem remains.
    Severe,
    /// Generation should succeed but might have unexpected results.
    Warning,
}

/// The rank of a level: a more severe level has a higher rank.
pub open spec fn severity(l: ReportLevel) -> int {
    match l {
        ReportLevel::Severe => 2,
        ReportLevel::Warning => 1,
    }
}

/// Which part of a project a report entry is about.
#[derive(Debug, PartialEq, Eq, Clone, Copy, Structural)]
pub enum ReportMessageOrigin {
    /// A binding declared in a generator.
    GeneratorBinding,
    /// An include directive of a generator.
    GeneratorConfig,
    /// An atom declared in a partial.
    PartialConfig,
}

/// The problems that a binding of a generator can have.
#[derive(Debug, PartialEq, Eq, Clone, Copy, Structural)]
pub enum GeneratorBindingReport {
    CanNotCreateFile,
    FileAlreadyExists,
    FileConflict,
}

/// The problems that an include directive of a generator can have.
#[derive(Debug, PartialEq, Eq, Clone, Copy, Structural)]
pub enum GeneratorConfigReport {
    PartialDoesNotExist,
}

/// The problems that an atom of a partial can have.
#[derive(Debug, PartialEq, Eq, Clone, Copy, Structural)]
pub enum PartialConfigReport {
    NameConflict,
}

/// The stable code of a report message.
#[derive(Debug, PartialEq, Eq, Clone, Copy, Structural)]
pub enum ReportCode {
    Binding(GeneratorBindingReport),
    Config(GeneratorConfigReport),
    Partial(PartialConfigReport),
}

impl ReportCode {
    /// The code as the text that is shown to users.
    pub fn as_str(&self) -> (r: &'static str)
        ensures
            r@ == code_text(*self),
    {
        match self {
            ReportCode::Binding(GeneratorBindingReport::CanNotCreateFile) => "CanNotCreateFile",
            ReportCode::Binding(GeneratorBindingReport::FileAlreadyExists) => "FileAlreadyExists",
            ReportCode::Binding(GeneratorBindingReport::FileConflict) => "FileConflict",
            ReportCode::Config(GeneratorConfigReport::PartialDoesNotExist) => "PartialDoesNotExist",
            ReportCode::Partial(PartialConfigReport::NameConflict) => "NameConflict",
        }
    }
}

pub open spec fn code_text(c: ReportCode) -> Seq<char> {
    match c {
        ReportCode::Binding(GeneratorBindingReport::CanNotCreateFile) => "CanNotCreateFile"@,
        ReportCode::Binding(GeneratorBindingReport::FileAlreadyExists) => "FileAlreadyExists"@,
        ReportCode::Binding(GeneratorBindingReport::FileConflict) => "FileConflict"@,
        ReportCode::Config(GeneratorConfigReport::PartialDoesNotExist) => "PartialDoesNotExist"@,
        ReportCode::Partial(PartialConfigReport::NameConflict) => "NameConflict"@,
    }
}

/// An error code combined with a message that can be displayed to end users.
#[derive(Debug, Clone)]
pub struct ReportMessage {
    /// The origin of the report
    pub origin: ReportMessageOrigin,
    /// A unique code for the report
    pub code: ReportCode,
    /// The severity of the report
    pub level: ReportLevel,
    /// The text shown to users
    pub message: String,
}

/// What a report message holds, as plain values.
pub struct MessageView {
    pub origin: ReportMessageOrigin,
    pub code: ReportCode,
    pub level: ReportLevel,
    pub text: Seq<char>,
}

impl View for ReportMessage {
    type V = MessageView;

    open spec fn view(&self) -> MessageView {
        MessageView {
            origin: self.origin,
            code: self.code,
            level: self.level,
            text: self.message@,
        }
    }
}

/// What `{:?}` writes for a string: the string quoted, with its special characters
/// escaped.
pub uninterp spec fn debug_quoted(s: Seq<char>) -> Seq<char>;

/// Relies on std's `Debug` impl for `str`: the text depends on the characters alone.
#[verifier::external_body]
fn quoted(s: &str) -> (r: String)
    ensures
        r@ == debug_quoted(s@),
{
    format!("{:?}", s)
}

/// `before`, the quoted `subject`, then `after`.
fn quote_between(before: &str, subject: &str, after: &str) -> (r: String)
    ensures
        r@ == before@ + debug_quoted(subject@) + after@,
{
    let mut r = String::from_str(before);
    let q = quoted(subject);
    r.append(q.as_str());
    r.append(after);
    r
}

pub open spec fn message_of(
    origin: ReportMessageOrigin,
    code: ReportCode,
    level: ReportLevel,
    text: Seq<char>,
) -> MessageView {
    MessageView { origin, code, level, text }
}

pub open spec fn can_not_create_file_message(location: Seq<char>) -> MessageView {
    message_of(
        ReportMessageOrigin::GeneratorBinding,
        ReportCode::Binding(GeneratorBindingReport::CanNotCreateFile),
        ReportLevel::Severe,
        "File at location "@ + debug_quoted(location) + " can not be created"@,
    )
}

pub open spec fn file_already_exists_message(location: Seq<char>) -> MessageView {
    message_of(
        ReportMessageOrigin::GeneratorBinding,
        ReportCode::Binding(GeneratorBindingReport::FileAlreadyExists),
        ReportLevel::Warning,
        "The file "@ + debug_quoted(location) + " already exists"@,
    )
}

pub open spec fn file_conflict_message(b1: Seq<char>, b2: Seq<char>) -> MessageView {
    message_of(
        ReportMessageOrigin::GeneratorBinding,
        ReportCode::Binding(GeneratorBindingReport::FileConflict),
        ReportLevel::Warning,
        "Generator binding "@ + debug_quoted(b1) + " and "@ + debug_quoted(b2)
            + " have the same output location"@,
    )
}

pub open spec fn partial_does_not_exist_message(partial_name: Seq<char>) -> MessageView {
    message_of(
        ReportMessageOrigin::GeneratorConfig,
        ReportCode::Config(GeneratorConfigReport::PartialDoesNotExist),
        ReportLevel::Severe,
        "Named partial "@ + debug_quoted(partial_name) + " does not exist"@,
    )
}

pub open spec fn name_conflict_message(partial_name: Seq<char>) -> MessageView {
    message_of(
        ReportMessageOrigin::PartialConfig,
        ReportCode::Partial(PartialConfigReport::NameConflict),
        ReportLevel::Warning,
        "Partial name "@ + debug_quoted(partial_name) + " conflicts with another partial of the same name"@,
    )
}

/// Creates the messages about generators.
pub struct GeneratorReportCreator {}

impl GeneratorReportCreator {
    pub fn can_not_create_file(location: &str) -> (r: ReportMessage)
        ensures
            r@ == can_not_create_file_message(location@),
    {
        ReportMessage {
            origin: ReportMessageOrigin::GeneratorBinding,
            code: ReportCode::Binding(GeneratorBindingReport::CanNotCreateFile),
            level: ReportLevel::Severe,
            message: quote_between("File at location ", location, " can not be created"),
        }
    }

    pub fn file_already_exists(location: &str) -> (r: ReportMessage)
        ensures
            r@ == file_already_exists_message(location@),
    {
        ReportMessage {
            origin: ReportMessageOrigin::GeneratorBinding,
            code: ReportCode::Binding(GeneratorBindingReport::FileAlreadyExists),
            level: ReportLevel::Warning,
            message: quote_between("The file ", location, " already exists"),
        }
    }

    pub fn file_conflict(b1: &str, b2: &str) -> (r: ReportMessage)
        ensures
            r@ == file_conflict_message(b1@, b2@),
    {
        let mut message = quote_between("Generator binding ", b1, " and ");
        let second = quote_between("", b2, " have the same output location");
        message.append(second.as_str());
        proof {
            reveal_strlit("");
            assert(""@ =~= Seq::<char>::empty());
            assert(message@ =~= "Generator binding "@ + debug_quoted(b1@) + " and "@
                + debug_quoted(b2@) + " have the same output location"@);
        }
        ReportMessage {
            origin: ReportMessageOrigin::GeneratorBinding,
            code: ReportCode::Binding(GeneratorBindingReport::FileConflict),
            level: ReportLevel::Warning,
            message,
        }
    }

    pub fn partial_does_not_exist(partial_name: &str) -> (r: ReportMessage)
        ensures
            r@ == partial_does_not_exist_message(partial_name@),
    {
        ReportMessage {
            origin: ReportMessageOrigin::GeneratorConfig,
            code: ReportCode::Config(GeneratorConfigReport::PartialDoesNotExist),
            level: ReportLevel::Severe,
            message: quote_between("Named partial ", partial_name, " does not exist"),
        }
    }
}

/// Creates the messages about partials.
pub struct PartialReportCreator {}

impl PartialReportCreator {
    pub fn name_conflict(partial_name: &str) -> (r: ReportMessage)
        ensures
            r@ == name_conflict_message(partial_name@),
    {
        ReportMessage {
            origin: ReportMessageOrigin::PartialConfig,
            code: ReportCode::Partial(PartialConfigReport::NameConflict),
            level: ReportLevel::Warning,
            message: quote_between(
                "Partial name ",
                partial_name,
                " conflicts with another partial of the same name",
            ),
        }
    }
}

/// One reported problem: the index of the generator or partial (`owner`), the index of
/// the binding, directive or atom inside it (`item`), and the message.
#[derive(Debug, Clone)]
pub struct ReportEntry {
    pub owner: usize,
    pub item: usize,
    pub message: ReportMessage,
}

/// What a report entry holds, as plain values.
pub struct EntryView {
    pub owner: int,
    pub item: int,
    pub message: MessageView,
}

impl View for ReportEntry {
    type V = EntryView;

    open spec fn view(&self) -> EntryView {
        EntryView { owner: self.owner as int, item: self.item as int, message: self.message@ }
    }
}

pub open spec fn entries_view(es: Seq<ReportEntry>) -> Seq<EntryView> {
    es.map_values(|e: ReportEntry| e@)
}

/// The problems found in the generators of a project.
#[derive(Debug, Clone)]
pub struct GeneratorReport {
    /// Problems of bindings: the owner is a generator, the item one of its bindings
    pub bindings: Vec<ReportEntry>,
    /// Problems of include directives: the owner is a generator, the item a directive
    pub config: Vec<ReportEntry>,
}

/// The problems found in the partials of a project.
#[derive(Debug, Clone)]
pub struct PartialReport {
    /// Problems of atoms: the owner is a partial, the item one of its atoms
    pub config: Vec<ReportEntry>,
}

/// All the problems that were detected during the validation phase.
#[derive(Debug, Clone)]
pub struct ValidationReport {
    pub generators: GeneratorReport,
    pub partials: PartialReport,
}

/// The three lists of a report: binding problems, directive problems, atom problems.
pub struct ReportView {
    pub bindings: Seq<EntryView>,
    pub directives: Seq<EntryView>,
    pub atoms: Seq<EntryView>,
}

impl View for ValidationReport {
    type V = ReportView;

    open spec fn view(&self) -> ReportView {
        ReportView {
            bindings: entries_view(self.generators.bindings@),
            directives: entries_view(self.generators.config@),
            atoms: entries_view(self.partials.config@),
        }
    }
}

/// Some entry of `es` has a level at least as severe as `level`.
pub open spec fn has_entry_at_level(es: Seq<EntryView>, level: ReportLevel) -> bool {
    exists|i: int| 0 <= i < es.len() && severity(#[trigger] es[i].message.level) >= severity(level)
}

fn any_at_level(es: &Vec<ReportEntry>, level: ReportLevel) -> (r: bool)
    ensures
        r == has_entry_at_level(entries_view(es@), level),
{
    let mut i: usize = 0;
    while i < es.len()
        invariant
            i <= es@.len(),
            forall|j: int| 0 <= j < i ==> severity(#[trigger] es@[j].message.level) < severity(level),
        decreases es@.len() - i,
    {
        let at_level = match (es[i].message.level, level) {
            (ReportLevel::Warning, ReportLevel::Severe) => false,
            _ => true,
        };
        if at_level {
            assert(entries_view(es@)[i as int].message.level == es@[i as int].message.level);
            return true;
        }
        i = i + 1;
    }
    assert forall|j: int| 0 <= j < entries_view(es@).len() implies severity(
        #[trigger] entries_view(es@)[j].message.level,
    ) < severity(level) by {
        assert(entries_view(es@)[j].message.level == es@[j].message.level);
    }
    false
}

impl ValidationReport {
    /// A report without entries.
    pub fn new() -> (r: ValidationReport)
        ensures
            r@.bindings.len() == 0,
            r@.directives.len() == 0,
            r@.atoms.len() == 0,
    {
        let r = ValidationReport {
            generators: GeneratorReport { bindings: Vec::new(), config: Vec::new() },
            partials: PartialReport { config: Vec::new() },
        };
        assert(r@.bindings =~= Seq::empty());
        assert(r@.directives =~= Seq::empty());
        assert(r@.atoms =~= Seq::empty());
        r
    }

    /// Whether the report holds any entry.
    pub fn has_errors(&self) -> (r: bool)
        ensures
            r == (self@.bindings.len() > 0 || self@.directives.len() > 0 || self@.atoms.len()
                > 0),
    {
        !(self.generators.bindings.len() == 0 && self.generators.config.len() == 0
            && self.partials.config.len() == 0)
    }

    /// Whether the report holds an entry of the given level or a more severe one. Can be
    /// used to stop before generating.
    pub fn has_errors_with_level(&self, level: ReportLevel) -> (r: bool)
        ensures
            r == (has_entry_at_level(self@.bindings, level) || has_entry_at_level(
                self@.directives,
                level,
            ) || has_entry_at_level(self@.atoms, level)),
    {
        any_at_level(&self.generators.bindings, level) || any_at_level(
            &self.generators.config,
            level,
        ) || any_at_level(&self.partials.config, level)
    }

    /// Records a problem of binding `binding` of generator `generator`.
    pub fn add_generator_binding_report(
        &mut self,
        generator: usize,
        binding: usize,
        report: ReportMessage,
    )
        ensures
            final(self)@.bindings == old(self)@.bindings.push(
                EntryView { owner: generator as int, item: binding as int, message: report@ },
            ),
            final(self)@.directives == old(self)@.directives,
            final(self)@.atoms == old(self)@.atoms,
    {
        self.generators.bindings.push(ReportEntry { owner: generator, item: binding, message: report });
        assert(self@.bindings =~= old(self)@.bindings.push(
            EntryView { owner: generator as int, item: binding as int, message: report@ },
        ));
    }

    /// Records a problem of include directive `directive` of generator `generator`.
    pub fn add_generator_config_report(
        &mut self,
        generator: usize,
        directive: usize,
        report: ReportMessage,
    )
        ensures
            final(self)@.directives == old(self)@.directives.push(
                EntryView { owner: generator as int, item: directive as int, message: report@ },
            ),
            final(self)@.bindings == old(self)@.bindings,
            final(self)@.atoms == old(self)@.atoms,
    {
        self.generators.config.push(ReportEntry { owner: generator, item: directive, message: report });
        assert(self@.directives =~= old(self)@.directives.push(
            EntryView { owner: generator as int, item: directive as int, message: report@ },
        ));
    }

    /// Records a problem of atom `atom` of partial `partial`.
    pub fn add_partial_config_report(&mut self, partial: usize, atom: usize, report: ReportMessage)
        ensures
            final(self)@.atoms == old(self)@.atoms.push(
                EntryView { owner: partial as int, item: atom as int, message: report@ },
            ),
            final(self)@.bindings == old(self)@.bindings,
            final(self)@.directives == old(self)@.directives,
    {
        self.partials.config.push(ReportEntry { owner: partial, item: atom, message: report });
        assert(self@.atoms =~= old(self)@.atoms.push(
            EntryView { owner: partial as int, item: atom as int, message: report@ },
        ));
    }
}

impl Default for ValidationReport {
    fn default() -> (r: ValidationReport)
        ensures
            r@.bindings.len() == 0,
            r@.directives.len() == 0,
            r@.atoms.len() == 0,
    {
        ValidationReport::new()
    }
}

} // verus!
