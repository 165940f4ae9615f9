//! The configuration as the daemon uses it: checked, compiled and resolved.

use regex::Regex;
use vstd::prelude::*;

use crate::config::path::{path_is_relative, path_join, resolve_path, resolved_path};
use crate::config::pattern::{compiled, compiles, pattern_matches, regex_is_match};
use crate::config::termsfx_config_source::{
    first_fault, lemma_first_fault_none, reports_fault, resolved_paths, CommandRule,
    TermsfxCommandConfigSource, TermsfxConfigSource, TermsfxConfigSourceError,
};

verus! {

/// Whether `error` says why `rule` cannot be used: its first fault, or else
/// what the compiler of regular expressions said of its pattern.
pub open spec fn rule_refusal(rule: CommandRule, error: TermsfxConfigSourceError) -> bool {
    match rule.fault() {
        Some(fault) => reports_fault(error, fault),
        None => error matches TermsfxConfigSourceError::InvalidRegex(cause) && compiled(
            rule.command,
        ) == Err::<Regex, regex::Error>(cause),
    }
}

/// What the compiler of regular expressions said of the first pattern that
/// it refused.
pub open spec fn first_uncompiled(rules: Seq<CommandRule>) -> Option<regex::Error>
    decreases rules.len(),
{
    if rules.len() == 0 {
        None
    } else {
        match compiled(rules[0].command) {
            Err(cause) => Some(cause),
            Ok(_) => first_uncompiled(rules.drop_first()),
        }
    }
}

/// Whether every rule is accepted and every pattern compiles.
pub open spec fn loadable(rules: Seq<CommandRule>) -> bool {
    first_fault(rules) is None && first_uncompiled(rules) is None
}

/// Whether `error` says why `rules` cannot be used: the first fault of the
/// first refused rule, or else, where no rule has a fault, what was said of
/// the first pattern that does not compile.
pub open spec fn load_refusal(rules: Seq<CommandRule>, error: TermsfxConfigSourceError) -> bool {
    match first_fault(rules) {
        Some(fault) => reports_fault(error, fault),
        None => error matches TermsfxConfigSourceError::InvalidRegex(cause) && first_uncompiled(
            rules,
        ) == Some(cause),
    }
}

/// Each of `rules` with its relative audio paths resolved against `base`.
pub open spec fn resolved_rules(rules: Seq<CommandRule>, base: Seq<char>) -> Seq<CommandRule> {
    Seq::new(rules.len(), |i: int| rules[i].resolved(base))
}

/// The audio files to play for the command `text`: the targets of every rule
/// whose pattern matches, rule after rule in the order of `rules`.
pub open spec fn playlist(rules: Seq<CommandRule>, text: Seq<char>) -> Seq<Seq<char>>
    decreases rules.len(),
{
    if rules.len() == 0 {
        Seq::empty()
    } else {
        playlist(rules.drop_last(), text) + fired(rules.last(), text)
    }
}

/// The audio files that `rule` contributes for the command `text`.
pub open spec fn fired(rule: CommandRule, text: Seq<char>) -> Seq<Seq<char>> {
    if pattern_matches(rule.command, text) {
        rule.targets()
    } else {
        Seq::empty()
    }
}

/// A rule of the loaded configuration: a compiled pattern and its audio
/// files. It always has a pattern that compiles and exactly one form of
/// audio target.
#[derive(Debug)]
pub struct TermsfxCommandConfig {
    pattern: String,
    command: Regex,
    audio_file_path: Option<String>,
    audio_file_paths: Option<Vec<String>>,
}

impl View for TermsfxCommandConfig {
    type V = CommandRule;

    closed spec fn view(&self) -> CommandRule {
        CommandRule {
            command: self.pattern@,
            audio_file_path: self.audio_file_path.deep_view(),
            audio_file_paths: self.audio_file_paths.deep_view(),
        }
    }
}

/// A copy of `paths`.
fn copy_paths(paths: &Vec<String>) -> (copy: Vec<String>)
    ensures
        copy.deep_view() == paths.deep_view(),
{
    let mut copy: Vec<String> = Vec::new();
    let mut i: usize = 0;
    while i < paths.len()
        invariant
            i <= paths.len(),
            copy@.len() == i,
            forall|j: int| 0 <= j < i ==> (#[trigger] copy@[j])@ == paths@[j]@,
        decreases paths.len() - i,
    {
        copy.push(paths[i].clone());
        i = i + 1;
    }
    assert(copy.deep_view() =~= paths.deep_view());
    copy
}

/// Each of `paths` resolved against `base`.
fn resolve_paths(base: &str, paths: &Vec<String>) -> (resolved: Vec<String>)
    ensures
        resolved.deep_view() == resolved_paths(base@, paths.deep_view()),
{
    let mut resolved: Vec<String> = Vec::new();
    let mut i: usize = 0;
    while i < paths.len()
        invariant
            i <= paths.len(),
            resolved@.len() == i,
            forall|j: int|
                0 <= j < i ==> (#[trigger] resolved@[j])@ == resolved_paths(
                    base@,
                    paths.deep_view(),
                )[j],
        decreases paths.len() - i,
    {
        resolved.push(resolve_path(base, paths[i].as_str()));
        i = i + 1;
    }
    assert(resolved.deep_view() =~= resolved_paths(base@, paths.deep_view()));
    resolved
}

impl TermsfxCommandConfig {
    #[verifier::type_invariant]
    spec fn consistent(self) -> bool {
        &&& compiled(self.pattern@) == Ok::<Regex, regex::Error>(self.command)
        &&& self@.well_shaped()
    }

    /// Checks and compiles `source`, resolving its relative audio paths
    /// against `base_path`.
    fn compile(source: &TermsfxCommandConfigSource, base_path: &str) -> (outcome: Result<
        Self,
        TermsfxConfigSourceError,
    >)
        ensures
            match outcome {
                Ok(rule) => source@.fault() is None && compiles(source@.command) && rule@
                    == source@.resolved(base_path@),
                Err(error) => rule_refusal(source@, error),
            },
    {
        match source.fault() {
            Some(fault) => {
                return Err(TermsfxConfigSourceError::from_fault(fault));
            },
            None => {},
        }
        let command = match Regex::new(source.command.as_str()) {
            Ok(command) => command,
            Err(cause) => {
                return Err(TermsfxConfigSourceError::InvalidRegex(cause));
            },
        };
        let audio_file_path = match &source.audio_file_path {
            Some(path) => Some(resolve_path(base_path, path.as_str())),
            None => None,
        };
        let audio_file_paths = match &source.audio_file_paths {
            Some(paths) => Some(resolve_paths(base_path, paths)),
            None => None,
        };
        Ok(
            TermsfxCommandConfig {
                pattern: source.command.clone(),
                command,
                audio_file_path,
                audio_file_paths,
            },
        )
    }

    /// Makes a rule of the daemon from a rule of the configuration file.
    ///
    /// The rule is refused with its first fault if it has one, and with the
    /// compiler's error if its pattern is no regular expression. Otherwise
    /// the pattern is compiled, and each relative audio path is resolved
    /// against `base_path`.
    pub fn try_from_source(source: TermsfxCommandConfigSource, base_path: &str) -> (outcome:
        Result<Self, TermsfxConfigSourceError>)
        ensures
            match outcome {
                Ok(rule) => source@.fault() is None && compiles(source@.command) && rule@
                    == source@.resolved(base_path@),
                Err(error) => rule_refusal(source@, error),
            },
    {
        Self::compile(&source, base_path)
    }

    /// The pattern as it was written.
    pub fn pattern(&self) -> (pattern: &str)
        ensures
            pattern@ == self@.command,
            compiles(self@.command),
            self@.well_shaped(),
    {
        proof {
            use_type_invariant(self);
        }
        self.pattern.as_str()
    }

    /// The compiled pattern.
    pub fn command(&self) -> (command: &Regex)
        ensures
            compiled(self@.command) == Ok::<Regex, regex::Error>(*command),
    {
        proof {
            use_type_invariant(self);
        }
        &self.command
    }

    /// The single audio file, if the rule has that form.
    pub fn audio_file_path(&self) -> (path: &Option<String>)
        ensures
            path.deep_view() == self@.audio_file_path,
    {
        &self.audio_file_path
    }

    /// The list of audio files, if the rule has that form.
    pub fn audio_file_paths(&self) -> (paths: &Option<Vec<String>>)
        ensures
            paths.deep_view() == self@.audio_file_paths,
    {
        &self.audio_file_paths
    }

    /// Whether the pattern matches somewhere in `text`.
    pub fn matches(&self, text: &str) -> (matched: bool)
        ensures
            matched == pattern_matches(self@.command, text@),
    {
        proof {
            use_type_invariant(self);
        }
        regex_is_match(&self.command, self.pattern.as_str(), text)
    }

    /// Appends the audio files of the rule to `queue`, in their order.
    pub fn enqueue_targets(&self, queue: &mut Vec<String>)
        ensures
            final(queue).deep_view() == old(queue).deep_view() + self@.targets(),
    {
        let ghost before = queue.deep_view();
        match &self.audio_file_path {
            Some(path) => {
                queue.push(path.clone());
                assert(queue.deep_view() =~= before + self@.targets());
            },
            None => {
                match &self.audio_file_paths {
                    Some(paths) => {
                        let mut i: usize = 0;
                        assert(queue.deep_view() =~= before + paths.deep_view().take(0));
                        while i < paths.len()
                            invariant
                                i <= paths.len(),
                                queue.deep_view() == before + paths.deep_view().take(i as int),
                            decreases paths.len() - i,
                        {
                            let ghost so_far = queue.deep_view();
                            queue.push(paths[i].clone());
                            assert(queue.deep_view() =~= so_far.push(paths@[i as int]@));
                            assert(paths.deep_view().take(i + 1) =~= paths.deep_view().take(
                                i as int,
                            ).push(paths@[i as int]@));
                            i = i + 1;
                        }
                        assert(paths.deep_view().take(i as int) =~= paths.deep_view());
                    },
                    None => {
                        assert(queue.deep_view() =~= before + self@.targets());
                    },
                }
            },
        }
    }
}

impl Clone for TermsfxCommandConfig {
    fn clone(&self) -> (copy: Self)
        ensures
            copy@ == self@,
    {
        proof {
            use_type_invariant(self);
        }
        let audio_file_path = match &self.audio_file_path {
            Some(path) => Some(path.clone()),
            None => None,
        };
        let audio_file_paths = match &self.audio_file_paths {
            Some(paths) => Some(copy_paths(paths)),
            None => None,
        };
        TermsfxCommandConfig {
            pattern: self.pattern.clone(),
            command: self.command.clone(),
            audio_file_path,
            audio_file_paths,
        }
    }
}

/// The loaded configuration: its rules, in the order of the file.
#[derive(Debug)]
pub struct TermsfxConfig {
    pub commands: Vec<TermsfxCommandConfig>,
}

impl View for TermsfxConfig {
    type V = Seq<CommandRule>;

    open spec fn view(&self) -> Seq<CommandRule> {
        Seq::new(self.commands@.len(), |i: int| self.commands@[i]@)
    }
}

impl Clone for TermsfxConfig {
    fn clone(&self) -> (copy: Self)
        ensures
            copy@ == self@,
    {
        let mut commands: Vec<TermsfxCommandConfig> = Vec::new();
        let mut i: usize = 0;
        while i < self.commands.len()
            invariant
                i <= self.commands.len(),
                commands@.len() == i,
                forall|j: int| 0 <= j < i ==> (#[trigger] commands@[j])@ == self.commands@[j]@,
            decreases self.commands.len() - i,
        {
            commands.push(self.commands[i].clone());
            i = i + 1;
        }
        let copy = TermsfxConfig { commands };
        assert(copy@ =~= self@);
        copy
    }
}

impl TermsfxConfig {
    /// The configuration without rules.
    pub fn default() -> (config: Self)
        ensures
            config@ == Seq::<CommandRule>::empty(),
    {
        let config = TermsfxConfig { commands: Vec::new() };
        assert(config@ =~= Seq::<CommandRule>::empty());
        config
    }

    /// Makes the daemon's configuration from the configuration file.
    ///
    /// The rules are checked first, all of them, and the first fault found
    /// refuses the file. Then each rule is compiled and resolved against
    /// `base_path` in turn; the first pattern that does not compile refuses
    /// the file.
    pub fn try_from_source(source: TermsfxConfigSource, base_path: &str) -> (outcome: Result<
        Self,
        TermsfxConfigSourceError,
    >)
        ensures
            match outcome {
                Ok(config) => loadable(source@) && config@ == resolved_rules(
                    source@,
                    base_path@,
                ),
                Err(error) => load_refusal(source@, error),
            },
    {
        match source.validate() {
            Err(error) => {
                return Err(error);
            },
            Ok(_) => {},
        }
        proof {
            lemma_first_fault_none(source@);
            assert(source@.skip(0) =~= source@);
        }
        let mut commands: Vec<TermsfxCommandConfig> = Vec::new();
        let mut i: usize = 0;
        while i < source.commands.len()
            invariant
                i <= source.commands.len(),
                first_fault(source@) is None,
                forall|j: int|
                    0 <= j < source@.len() ==> (#[trigger] source@[j]).fault() is None,
                first_uncompiled(source@) == first_uncompiled(source@.skip(i as int)),
                commands@.len() == i,
                forall|j: int|
                    0 <= j < i ==> (#[trigger] commands@[j])@ == source@[j].resolved(
                        base_path@,
                    ),
            decreases source.commands.len() - i,
        {
            let ghost rest = source@.skip(i as int);
            assert(rest[0] == source@[i as int]);
            assert(rest.drop_first() =~= source@.skip(i + 1));
            match TermsfxCommandConfig::compile(&source.commands[i], base_path) {
                Ok(rule) => {
                    commands.push(rule);
                },
                Err(error) => {
                    return Err(error);
                },
            }
            i = i + 1;
        }
        let config = TermsfxConfig { commands };
        assert(config@ =~= resolved_rules(source@, base_path@));
        Ok(config)
    }

    /// The audio files to play for the command `text`: the targets of every
    /// rule whose pattern matches, in the order of the rules.
    pub fn playlist(&self, text: &str) -> (queue: Vec<String>)
        ensures
            queue.deep_view() == playlist(self@, text@),
    {
        let mut queue: Vec<String> = Vec::new();
        let mut i: usize = 0;
        assert(queue.deep_view() =~= playlist(self@.take(0), text@));
        while i < self.commands.len()
            invariant
                i <= self.commands.len(),
                queue.deep_view() == playlist(self@.take(i as int), text@),
            decreases self.commands.len() - i,
        {
            let ghost next = self@.take(i + 1);
            assert(next.drop_last() =~= self@.take(i as int));
            assert(next.last() == self.commands@[i as int]@);
            let rule = &self.commands[i];
            if rule.matches(text) {
                rule.enqueue_targets(&mut queue);
            } else {
                assert(queue.deep_view() + Seq::<Seq<char>>::empty() =~= queue.deep_view());
            }
            i = i + 1;
        }
        assert(self@.take(i as int) =~= self@);
        queue
    }
}

/// Resolving a rule leaves its pattern alone and resolves each of its audio
/// files against the base directory: a relative path is adjoined to the
/// base, whatever the directory in which the daemon works, and an absolute
/// path is kept.
pub proof fn lemma_resolved_targets(rule: CommandRule, base: Seq<char>)
    ensures
        rule.resolved(base).command == rule.command,
        rule.resolved(base).targets() == resolved_paths(base, rule.targets()),
        forall|i: int|
            0 <= i < rule.targets().len() ==> #[trigger] rule.resolved(base).targets()[i] == (
            if path_is_relative(rule.targets()[i]) {
                path_join(base, rule.targets()[i])
            } else {
                rule.targets()[i]
            }),
{
    assert(rule.resolved(base).targets() =~= resolved_paths(base, rule.targets()));
    assert forall|i: int| 0 <= i < rule.targets().len() implies #[trigger] rule.resolved(
        base,
    ).targets()[i] == resolved_path(base, rule.targets()[i]) by {}
}

/// The rules of two lists fire one list after the other: no rule is skipped
/// because an earlier one matched, and the order of the rules is kept.
pub proof fn lemma_playlist_concat(first: Seq<CommandRule>, second: Seq<CommandRule>, text: Seq<char>)
    ensures
        playlist(first + second, text) == playlist(first, text) + playlist(second, text),
    decreases second.len(),
{
    if second.len() == 0 {
        assert(first + second =~= first);
        assert(playlist(first, text) + playlist(second, text) =~= playlist(first, text));
    } else {
        let all = first + second;
        assert(all.drop_last() =~= first + second.drop_last());
        assert(all.last() == second.last());
        lemma_playlist_concat(first, second.drop_last(), text);
        assert(playlist(all, text) =~= playlist(first, text) + playlist(second, text));
    }
}

/// A rule whose pattern matches plays all of its audio files, wherever it
/// stands among the rules.
pub proof fn lemma_matching_rule_fires(
    before: Seq<CommandRule>,
    rule: CommandRule,
    after: Seq<CommandRule>,
    text: Seq<char>,
)
    requires
        pattern_matches(rule.command, text),
    ensures
        playlist(before + seq![rule] + after, text) == playlist(before, text) + rule.targets()
            + playlist(after, text),
{
    lemma_playlist_concat(before + seq![rule], after, text);
    lemma_playlist_concat(before, seq![rule], text);
    assert(seq![rule].drop_last() =~= Seq::<CommandRule>::empty());
    assert(seq![rule].last() == rule);
    assert(playlist(Seq::<CommandRule>::empty(), text) =~= Seq::<Seq<char>>::empty());
    assert(playlist(seq![rule], text) =~= rule.targets());
}

} // verus!
