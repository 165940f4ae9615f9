//! The configuration as it is written down, before it is checked.

use vstd::prelude::*;
use vstd::string::*;

use crate::config::path::resolved_path;
use crate::config::pattern::regex_error_text;

verus! {

/// A rule as the contracts of this crate see it: a pattern and the audio
/// files it stands for, given as one path or as a list of paths.
pub struct CommandRule {
    pub command: Seq<char>,
    pub audio_file_path: Option<Seq<char>>,
    pub audio_file_paths: Option<Seq<Seq<char>>>,
}

/// Why a rule is refused.
#[derive(Debug, Clone, Copy, PartialEq, Eq, Structural)]
pub enum RuleFault {
    /// The pattern is empty.
    MissingCommand,
    /// Neither a path nor a list of paths is given.
    MissingAudio,
    /// Both a path and a list of paths are given.
    AmbiguousAudio,
    /// The list of paths is empty.
    EmptyAudioList,
    /// A path is empty.
    EmptyAudioPath,
}

/// Whether one of `paths` is empty.
pub open spec fn has_empty_path(paths: Seq<Seq<char>>) -> bool {
    exists|i: int| 0 <= i < paths.len() && (#[trigger] paths[i]).len() == 0
}

impl CommandRule {
    /// The audio files of the rule, in the order in which they are played.
    pub open spec fn targets(self) -> Seq<Seq<char>> {
        match (self.audio_file_path, self.audio_file_paths) {
            (Some(path), _) => seq![path],
            (None, Some(paths)) => paths,
            (None, None) => Seq::empty(),
        }
    }

    /// Whether the rule has a pattern and exactly one form of audio target,
    /// a list of paths not being empty.
    pub open spec fn well_shaped(self) -> bool {
        &&& self.command.len() > 0
        &&& self.audio_file_path is Some <==> self.audio_file_paths is None
        &&& self.audio_file_paths matches Some(paths) ==> paths.len() > 0
    }

    /// The first reason to refuse the rule, if there is one.
    pub open spec fn fault(self) -> Option<RuleFault> {
        if self.command.len() == 0 {
            Some(RuleFault::MissingCommand)
        } else if self.audio_file_path is None && self.audio_file_paths is None {
            Some(RuleFault::MissingAudio)
        } else if self.audio_file_path is Some && self.audio_file_paths is Some {
            Some(RuleFault::AmbiguousAudio)
        } else if self.audio_file_paths is Some && self.targets().len() == 0 {
            Some(RuleFault::EmptyAudioList)
        } else if has_empty_path(self.targets()) {
            Some(RuleFault::EmptyAudioPath)
        } else {
            None
        }
    }

    /// The rule with its relative audio paths resolved against `base`.
    pub open spec fn resolved(self, base: Seq<char>) -> CommandRule {
        CommandRule {
            command: self.command,
            audio_file_path: match self.audio_file_path {
                Some(path) => Some(resolved_path(base, path)),
                None => None,
            },
            audio_file_paths: match self.audio_file_paths {
                Some(paths) => Some(resolved_paths(base, paths)),
                None => None,
            },
        }
    }
}

/// Each of `paths` resolved against `base`.
pub open spec fn resolved_paths(base: Seq<char>, paths: Seq<Seq<char>>) -> Seq<Seq<char>> {
    Seq::new(paths.len(), |i: int| resolved_path(base, paths[i]))
}

/// The fault of the first rule that has one.
pub open spec fn first_fault(rules: Seq<CommandRule>) -> Option<RuleFault>
    decreases rules.len(),
{
    if rules.len() == 0 {
        None
    } else if rules[0].fault() is Some {
        rules[0].fault()
    } else {
        first_fault(rules.drop_first())
    }
}

impl RuleFault {
    /// The words that describe the fault.
    pub open spec fn text(self) -> Seq<char> {
        match self {
            RuleFault::MissingCommand => "command must be provided"@,
            RuleFault::MissingAudio => "audioFilePath or audioFilePaths must be provided"@,
            RuleFault::AmbiguousAudio => "audioFilePath and audioFilePaths cannot both be provided"@,
            RuleFault::EmptyAudioList => "audioFilePaths must not be empty"@,
            RuleFault::EmptyAudioPath => "audio file paths must not be empty"@,
        }
    }

    /// The words that describe the fault.
    pub fn message(self) -> (message: &'static str)
        ensures
            message@ == self.text(),
    {
        match self {
            RuleFault::MissingCommand => "command must be provided",
            RuleFault::MissingAudio => "audioFilePath or audioFilePaths must be provided",
            RuleFault::AmbiguousAudio => "audioFilePath and audioFilePaths cannot both be provided",
            RuleFault::EmptyAudioList => "audioFilePaths must not be empty",
            RuleFault::EmptyAudioPath => "audio file paths must not be empty",
        }
    }
}

/// Why a configuration is refused.
#[derive(Debug)]
pub enum TermsfxConfigSourceError {
    /// A pattern is no regular expression.
    InvalidRegex(regex::Error),
    /// A rule is ill-formed.
    InvalidConfig(&'static str),
}

/// Whether `error` reports `fault`.
pub open spec fn reports_fault(error: TermsfxConfigSourceError, fault: RuleFault) -> bool {
    error matches TermsfxConfigSourceError::InvalidConfig(message) && message@ == fault.text()
}

impl TermsfxConfigSourceError {
    /// The error for a rule with `fault`.
    pub fn from_fault(fault: RuleFault) -> (error: TermsfxConfigSourceError)
        ensures
            reports_fault(error, fault),
    {
        TermsfxConfigSourceError::InvalidConfig(fault.message())
    }

    /// The error in words.
    pub fn message(&self) -> (text: String)
        ensures
            match self {
                TermsfxConfigSourceError::InvalidConfig(message) => text@ == "Invalid config: "@
                    + message@,
                TermsfxConfigSourceError::InvalidRegex(_) => "Invalid regex pattern: "@.is_prefix_of(
                    text@,
                ),
            },
    {
        match self {
            TermsfxConfigSourceError::InvalidConfig(message) => {
                "Invalid config: ".to_owned().concat(message)
            },
            TermsfxConfigSourceError::InvalidRegex(error) => {
                let detail = regex_error_text(error);
                "Invalid regex pattern: ".to_owned().concat(detail.as_str())
            },
        }
    }
}

/// One rule of the configuration file.
#[derive(Debug, Clone)]
pub struct TermsfxCommandConfigSource {
    pub command: String,
    pub audio_file_path: Option<String>,
    pub audio_file_paths: Option<Vec<String>>,
}

impl View for TermsfxCommandConfigSource {
    type V = CommandRule;

    open spec fn view(&self) -> CommandRule {
        CommandRule {
            command: self.command@,
            audio_file_path: self.audio_file_path.deep_view(),
            audio_file_paths: self.audio_file_paths.deep_view(),
        }
    }
}

/// Whether one of `paths` is empty.
fn any_empty(paths: &Vec<String>) -> (found: bool)
    ensures
        found == has_empty_path(paths.deep_view()),
{
    let mut i: usize = 0;
    while i < paths.len()
        invariant
            i <= paths.len(),
            forall|j: int| 0 <= j < i ==> (#[trigger] paths.deep_view()[j]).len() > 0,
        decreases paths.len() - i,
    {
        if paths[i].as_str().is_empty() {
            assert(paths.deep_view()[i as int].len() == 0);
            return true;
        }
        i = i + 1;
    }
    false
}

impl TermsfxCommandConfigSource {
    /// The first reason to refuse the rule, if there is one.
    pub fn fault(&self) -> (fault: Option<RuleFault>)
        ensures
            fault == self@.fault(),
    {
        if self.command.as_str().is_empty() {
            return Some(RuleFault::MissingCommand);
        }
        match (&self.audio_file_path, &self.audio_file_paths) {
            (None, None) => Some(RuleFault::MissingAudio),
            (Some(_), Some(_)) => Some(RuleFault::AmbiguousAudio),
            (Some(path), None) => {
                assert(self@.targets() =~= seq![path@]);
                if path.as_str().is_empty() {
                    assert(self@.targets()[0].len() == 0);
                    Some(RuleFault::EmptyAudioPath)
                } else {
                    None
                }
            },
            (None, Some(paths)) => {
                if paths.len() == 0 {
                    Some(RuleFault::EmptyAudioList)
                } else if any_empty(paths) {
                    Some(RuleFault::EmptyAudioPath)
                } else {
                    None
                }
            },
        }
    }

    /// Accepts the rule if it has a pattern, exactly one form of audio target
    /// and no empty path, and reports its first fault otherwise.
    pub fn validate(&self) -> (outcome: Result<(), TermsfxConfigSourceError>)
        ensures
            outcome is Ok <==> self@.fault() is None,
            outcome matches Err(error) ==> reports_fault(error, self@.fault().unwrap()),
    {
        match self.fault() {
            Some(fault) => Err(TermsfxConfigSourceError::from_fault(fault)),
            None => Ok(()),
        }
    }
}

/// The configuration file: its rules, in the order in which they are written.
#[derive(Debug, Clone)]
pub struct TermsfxConfigSource {
    pub commands: Vec<TermsfxCommandConfigSource>,
}

impl View for TermsfxConfigSource {
    type V = Seq<CommandRule>;

    open spec fn view(&self) -> Seq<CommandRule> {
        Seq::new(self.commands@.len(), |i: int| self.commands@[i]@)
    }
}

impl TermsfxConfigSource {
    /// Accepts the configuration if every rule is accepted, and reports the
    /// first fault of the first refused rule otherwise.
    pub fn validate(&self) -> (outcome: Result<(), TermsfxConfigSourceError>)
        ensures
            outcome is Ok <==> first_fault(self@) is None,
            outcome matches Err(error) ==> reports_fault(error, first_fault(self@).unwrap()),
    {
        let mut i: usize = 0;
        assert(self@.skip(0) =~= self@);
        while i < self.commands.len()
            invariant
                i <= self.commands.len(),
                first_fault(self@) == first_fault(self@.skip(i as int)),
            decreases self.commands.len() - i,
        {
            let ghost rest = self@.skip(i as int);
            assert(rest[0] == self.commands@[i as int]@);
            assert(rest.drop_first() =~= self@.skip(i + 1));
            match self.commands[i].fault() {
                Some(fault) => {
                    return Err(TermsfxConfigSourceError::from_fault(fault));
                },
                None => {},
            }
            i = i + 1;
        }
        Ok(())
    }
}

/// A configuration has no fault exactly if none of its rules has one.
pub proof fn lemma_first_fault_none(rules: Seq<CommandRule>)
    ensures
        first_fault(rules) is None <==> forall|i: int|
            0 <= i < rules.len() ==> (#[trigger] rules[i]).fault() is None,
    decreases rules.len(),
{
    if rules.len() > 0 {
        let rest = rules.drop_first();
        lemma_first_fault_none(rest);
        if first_fault(rules) is None {
            assert forall|i: int| 0 <= i < rules.len() implies (#[trigger] rules[i]).fault()
                is None by {
                if i > 0 {
                    assert(rules[i] == rest[i - 1]);
                }
            }
        } else if rules[0].fault() is None {
            let i = choose|i: int| 0 <= i < rest.len() && (#[trigger] rest[i]).fault() is Some;
            assert(rules[i + 1] == rest[i]);
        }
    }
}

/// A rule is refused if it names both a path and a list of paths, if it
/// names neither, and if its pattern is empty.
pub proof fn lemma_ambiguous_rules_are_refused(rule: CommandRule)
    ensures
        rule.audio_file_path is Some && rule.audio_file_paths is Some ==> rule.fault() is Some,
        rule.audio_file_path is None && rule.audio_file_paths is None ==> rule.fault() is Some,
        rule.command.len() == 0 ==> rule.fault() is Some,
        rule.fault() is None ==> rule.well_shaped(),
{
}

} // verus!
