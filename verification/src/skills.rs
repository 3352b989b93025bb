//! Skills bundled with Warp: their activation conditions and icons, the
//! per-host catalogs, and the catalog snapshot a remote daemon pushes.
use vstd::prelude::*;
use crate::json::str_eq;
use crate::local_control::{join_path, join_path_exec};

verus! {

/// An MCP integration a skill can depend on.
#[derive(Debug, Clone, Copy, PartialEq, Eq, Structural)]
pub enum McpIntegration {
    Figma,
}

/// The stable wire identifier of an MCP integration.
pub fn mcp_integration_wire_id(integration: McpIntegration) -> (id: &'static str)
    ensures
        id@ == "figma"@,
{
    match integration {
        McpIntegration::Figma => "figma",
    }
}

/// A feature flag a skill can depend on.
#[derive(Debug, Clone, Copy, PartialEq, Eq, Structural)]
pub enum FeatureFlag {
    WarpControlCli,
}

/// The icon shown for a skill.
#[derive(Debug, Clone, Copy, PartialEq, Eq, Structural)]
pub enum Icon {
    Github,
    WarpLogoLight,
    Figma,
}

/// When a bundled skill is active.
#[derive(Debug, Clone)]
pub enum BundledSkillActivation {
    Always,
    RequiresFeature(FeatureFlag),
    RequiresMcp(McpIntegration),
    /// Active only while the file at this path exists.
    RequiresFile(String),
}

/// What the activation conditions are evaluated against: the feature
/// flags, the running MCP servers and the files that exist, as the caller
/// found them.
#[derive(Debug, Clone)]
pub struct ActivationEnvironment {
    pub warp_control_cli_enabled: bool,
    pub figma_mcp_running: bool,
    pub existing_files: Vec<String>,
}

/// Whether a condition holds in an environment.
pub open spec fn activation_holds(activation: BundledSkillActivation, env: ActivationEnvironment) -> bool {
    match activation {
        BundledSkillActivation::Always => true,
        BundledSkillActivation::RequiresFeature(FeatureFlag::WarpControlCli) => env.warp_control_cli_enabled,
        BundledSkillActivation::RequiresMcp(McpIntegration::Figma) => env.figma_mcp_running,
        BundledSkillActivation::RequiresFile(path) => exists|i: int|
            0 <= i < env.existing_files@.len() && (#[trigger] env.existing_files@[i])@ == path@,
    }
}

impl BundledSkillActivation {
    /// Whether the condition holds in `env`.
    pub fn is_enabled(&self, env: &ActivationEnvironment) -> (enabled: bool)
        ensures
            enabled == activation_holds(*self, *env),
    {
        match self {
            BundledSkillActivation::Always => true,
            BundledSkillActivation::RequiresFeature(FeatureFlag::WarpControlCli) => env.warp_control_cli_enabled,
            BundledSkillActivation::RequiresMcp(McpIntegration::Figma) => env.figma_mcp_running,
            BundledSkillActivation::RequiresFile(path) => {
                let n = env.existing_files.len();
                let mut i: usize = 0;
                while i < n
                    invariant
                        n == env.existing_files@.len(),
                        i <= n,
                        *self == BundledSkillActivation::RequiresFile(*path),
                        forall|k: int| 0 <= k < i ==> (#[trigger] env.existing_files@[k])@ != path@,
                    decreases n - i,
                {
                    if str_eq(env.existing_files[i].as_str(), path.as_str()) {
                        assert(env.existing_files@[i as int]@ == path@);
                        return true;
                    }
                    i = i + 1;
                }
                false
            },
        }
    }

    /// A copy of the condition.
    pub fn duplicate(&self) -> (copy: BundledSkillActivation)
        ensures
            copy == *self,
    {
        match self {
            BundledSkillActivation::Always => BundledSkillActivation::Always,
            BundledSkillActivation::RequiresFeature(f) => BundledSkillActivation::RequiresFeature(*f),
            BundledSkillActivation::RequiresMcp(m) => BundledSkillActivation::RequiresMcp(*m),
            BundledSkillActivation::RequiresFile(p) => BundledSkillActivation::RequiresFile(p.clone()),
        }
    }
}

/// What a host contributes to the variables of bundled skill content: its
/// channel's server URL, command names and URL scheme, and the paths of
/// the user's settings and keybindings files.
#[derive(Debug, Clone)]
pub struct BundledSkillHost {
    pub server_root_url: String,
    pub cli_binary_name: String,
    pub warpctrl_binary_name: String,
    pub url_scheme: String,
    pub settings_file_path: String,
    pub keybindings_file_path: String,
}

/// The plain values of a list of variable bindings.
pub open spec fn bindings_view(v: Seq<(String, String)>) -> Seq<(Seq<char>, Seq<char>)> {
    v.map_values(|b: (String, String)| (b.0@, b.1@))
}

/// The variables available to bundled skill content, with their values.
pub open spec fn skill_context(resources_dir: Seq<char>, skill_dir: Seq<char>, host: BundledSkillHost) -> Seq<(Seq<char>, Seq<char>)> {
    seq![
        ("warp_server_url"@, host.server_root_url@),
        ("warp_cli_binary_name"@, host.cli_binary_name@),
        ("warpctrl_binary_name"@, host.warpctrl_binary_name@),
        ("warpctrl_wrapper_path"@, join_path(join_path(resources_dir, "bin"@), host.warpctrl_binary_name@)),
        ("warp_url_scheme"@, host.url_scheme@),
        ("settings_file_path"@, host.settings_file_path@),
        ("keybindings_file_path"@, host.keybindings_file_path@),
        ("settings_schema_path"@, join_path(resources_dir, "settings_schema.json"@)),
        ("skill_dir"@, skill_dir),
    ]
}

/// The variable bindings for the content of the bundled skill in
/// `skill_dir`, whose resources root is `resources_dir`.
pub fn build_bundled_skill_context(resources_dir: &str, skill_dir: &str, host: &BundledSkillHost) -> (context: Vec<(String, String)>)
    ensures
        bindings_view(context@) == skill_context(resources_dir@, skill_dir@, *host),
{
    let bin_dir = join_path_exec(resources_dir, "bin");
    let mut context: Vec<(String, String)> = Vec::new();
    context.push(("warp_server_url".to_owned(), host.server_root_url.clone()));
    context.push(("warp_cli_binary_name".to_owned(), host.cli_binary_name.clone()));
    context.push(("warpctrl_binary_name".to_owned(), host.warpctrl_binary_name.clone()));
    context.push(("warpctrl_wrapper_path".to_owned(), join_path_exec(bin_dir.as_str(), host.warpctrl_binary_name.as_str())));
    context.push(("warp_url_scheme".to_owned(), host.url_scheme.clone()));
    context.push(("settings_file_path".to_owned(), host.settings_file_path.clone()));
    context.push(("keybindings_file_path".to_owned(), host.keybindings_file_path.clone()));
    context.push(("settings_schema_path".to_owned(), join_path_exec(resources_dir, "settings_schema.json")));
    context.push(("skill_dir".to_owned(), skill_dir.to_owned()));
    assert(bindings_view(context@) =~= skill_context(resources_dir@, skill_dir@, *host));
    context
}

/// The icon of a bundled skill, by its id: GitHub's for `pr-comments`,
/// Warp's otherwise.
pub fn icon_for_bundled_skill(skill_id: &str) -> (icon: Icon)
    ensures
        icon == (if skill_id@ == "pr-comments"@ { Icon::Github } else { Icon::WarpLogoLight }),
{
    if str_eq(skill_id, "pr-comments") {
        Icon::Github
    } else {
        Icon::WarpLogoLight
    }
}

/// The activation of a bundled skill, by its id: `modify-settings` needs the
/// settings schema in the resources directory, `warpctrl` needs the Warp
/// Control feature, the others are always active.
pub fn activation_for_bundled_skill(skill_id: &str, resources_dir: &str) -> (activation: BundledSkillActivation)
    ensures
        skill_id@ == "modify-settings"@ ==> (activation matches BundledSkillActivation::RequiresFile(p)
            && p@ == join_path(resources_dir@, "settings_schema.json"@)),
        skill_id@ == "warpctrl"@ ==> activation == BundledSkillActivation::RequiresFeature(FeatureFlag::WarpControlCli),
        skill_id@ != "modify-settings"@ && skill_id@ != "warpctrl"@ ==> activation is Always,
{
    assert("warpctrl"@ != "modify-settings"@) by {
        reveal_strlit("modify-settings");
        reveal_strlit("warpctrl");
        assert("warpctrl"@[0] != "modify-settings"@[0]);
    }
    if str_eq(skill_id, "modify-settings") {
        BundledSkillActivation::RequiresFile(join_path_exec(resources_dir, "settings_schema.json"))
    } else if str_eq(skill_id, "warpctrl") {
        BundledSkillActivation::RequiresFeature(FeatureFlag::WarpControlCli)
    } else {
        BundledSkillActivation::Always
    }
}

/// A parsed skill: the path of its `SKILL.md` and its content.
#[derive(Debug, Clone)]
pub struct ParsedSkill {
    pub path: String,
    pub content: String,
}

/// One bundled skill with its activation condition and icon.
#[derive(Debug)]
pub struct BundledSkillDefinition {
    pub skill: ParsedSkill,
    pub activation: BundledSkillActivation,
    pub icon: Icon,
}

/// The skills bundled with Warp for one host, by id.
#[derive(Debug)]
pub struct BundledSkill {
    pub definitions: Vec<(String, BundledSkillDefinition)>,
}

/// Index of the definition with id `id`.
pub open spec fn definition_index(defs: Seq<(String, BundledSkillDefinition)>, id: Seq<char>) -> Option<int>
    decreases defs.len(),
{
    if defs.len() == 0 {
        None
    } else if defs.last().0@ == id {
        Some(defs.len() - 1)
    } else {
        definition_index(defs.drop_last(), id)
    }
}

/// Whether some definition's skill lives at `path`.
pub open spec fn has_skill_at(defs: Seq<(String, BundledSkillDefinition)>, path: Seq<char>) -> bool {
    exists|k: int| 0 <= k < defs.len() && (#[trigger] defs[k]).1.skill.path@ == path
}

/// What a lookup by path may answer: nothing exactly when no skill lives
/// at `path`, else the skill of one of the definitions at `path`.
pub open spec fn path_lookup(defs: Seq<(String, BundledSkillDefinition)>, path: Seq<char>, found: Option<ParsedSkill>) -> bool {
    &&& found is None <==> !has_skill_at(defs, path)
    &&& found matches Some(s) ==> s.path@ == path && exists|k: int|
        0 <= k < defs.len() && #[trigger] defs[k].1.skill == s
}

/// What a lookup by path of an active skill may answer: the skill of one
/// of the definitions at `path` whose activation holds in `env`; nothing
/// when no skill lives at `path` or when none of those is active; something
/// when all of them are.
pub open spec fn active_path_lookup(defs: Seq<(String, BundledSkillDefinition)>, path: Seq<char>, env: ActivationEnvironment, found: Option<ParsedSkill>) -> bool {
    &&& !has_skill_at(defs, path) ==> found is None
    &&& found matches Some(s) ==> s.path@ == path && exists|k: int|
        0 <= k < defs.len() && #[trigger] defs[k].1.skill == s && activation_holds(defs[k].1.activation, env)
    &&& (has_skill_at(defs, path) && forall|k: int| 0 <= k < defs.len()
        && (#[trigger] defs[k]).1.skill.path@ == path ==> activation_holds(defs[k].1.activation, env))
        ==> found is Some
    &&& (forall|k: int| 0 <= k < defs.len()
        && (#[trigger] defs[k]).1.skill.path@ == path ==> !activation_holds(defs[k].1.activation, env))
        ==> found is None
}

/// The icon a definition received from a remote catalog gets: Figma's for
/// skills that need the Figma MCP server, else by id.
pub open spec fn icon_for_definition(id: Seq<char>, activation: BundledSkillActivation) -> Icon {
    match activation {
        BundledSkillActivation::RequiresMcp(McpIntegration::Figma) => Icon::Figma,
        _ => if id == "pr-comments"@ { Icon::Github } else { Icon::WarpLogoLight },
    }
}

proof fn lemma_definition_index(defs: Seq<(String, BundledSkillDefinition)>, id: Seq<char>)
    ensures
        match definition_index(defs, id) {
            Some(i) => 0 <= i < defs.len() && defs[i].0@ == id,
            None => forall|k: int| 0 <= k < defs.len() ==> (#[trigger] defs[k]).0@ != id,
        },
    decreases defs.len(),
{
    if defs.len() > 0 {
        lemma_definition_index(defs.drop_last(), id);
        if defs.last().0@ != id {
            assert forall|k: int| 0 <= k < defs.len() - 1 implies #[trigger] defs[k] == defs.drop_last()[k] by {}
        }
    }
}

impl BundledSkill {
    /// No id occurs twice.
    pub open spec fn wf(&self) -> bool {
        forall|i: int, j: int| 0 <= i < j < self.definitions@.len()
            ==> (#[trigger] self.definitions@[i]).0@ != (#[trigger] self.definitions@[j]).0@
    }

    /// The definition stored under `id`.
    pub open spec fn definition(&self, id: Seq<char>) -> Option<BundledSkillDefinition> {
        match definition_index(self.definitions@, id) {
            Some(i) => Some(self.definitions@[i].1),
            None => None,
        }
    }

    /// An empty catalog.
    pub fn new() -> (catalog: BundledSkill)
        ensures
            catalog.wf(),
            catalog.definitions@.len() == 0,
    {
        BundledSkill { definitions: Vec::new() }
    }

    fn find(&self, id: &str) -> (index: Option<usize>)
        ensures
            match index {
                Some(i) => definition_index(self.definitions@, id@) == Some(i as int) && i < self.definitions@.len(),
                None => definition_index(self.definitions@, id@) is None,
            },
    {
        proof {
            lemma_definition_index(self.definitions@, id@);
        }
        let mut i = self.definitions.len();
        assert(self.definitions@.take(i as int) =~= self.definitions@);
        while i > 0
            invariant
                i <= self.definitions@.len(),
                definition_index(self.definitions@, id@) == definition_index(self.definitions@.take(i as int), id@),
            decreases i,
        {
            assert(self.definitions@.take(i as int).drop_last() =~= self.definitions@.take(i - 1));
            if str_eq(self.definitions[i - 1].0.as_str(), id) {
                return Some(i - 1);
            }
            i = i - 1;
        }
        None
    }

    /// Stores a definition under `id`, replacing an earlier one with that id.
    pub fn insert(&mut self, id: String, definition: BundledSkillDefinition)
        ensures
            old(self).wf() ==> final(self).wf(),
            final(self).definition(id@) == Some(definition),
            forall|other: Seq<char>| other != id@ ==> #[trigger] final(self).definition(other) == old(self).definition(other),
    {
        let ghost before = self.definitions@;
        let ghost key = id@;
        proof {
            lemma_definition_index(before, key);
        }
        let found = self.find(id.as_str());
        match found {
            Some(i) => {
                self.definitions.set(i, (id, definition));
            },
            None => {
                self.definitions.push((id, definition));
            },
        }
        proof {
            let after = self.definitions@;
            match found {
                Some(i) => {
                    assert(after =~= before.update(i as int, after[i as int]));
                    assert forall|x: Seq<char>| #[trigger] definition_index(after, x) == definition_index(before, x) by {
                        lemma_same_ids(after, before, x);
                    }
                    assert forall|other: Seq<char>| other != key implies #[trigger] self.definition(other) == old(self).definition(other) by {
                        lemma_definition_index(before, other);
                        if let Some(k) = definition_index(before, other) {
                            assert(k != i);
                            assert(after[k] == before[k]);
                        }
                    }
                    if old(self).wf() {
                        assert forall|a: int, b: int| 0 <= a < b < after.len() implies (#[trigger] after[a]).0@ != (#[trigger] after[b]).0@ by {
                            assert(after[a].0@ == before[a].0@ && after[b].0@ == before[b].0@);
                        }
                    }
                },
                None => {
                    assert(after.drop_last() =~= before);
                    assert forall|other: Seq<char>| other != key implies #[trigger] self.definition(other) == old(self).definition(other) by {
                        lemma_definition_index(before, other);
                        if let Some(k) = definition_index(before, other) {
                            assert(after[k] == before[k]);
                        }
                    }
                    if old(self).wf() {
                        assert forall|a: int, b: int| 0 <= a < b < after.len() implies (#[trigger] after[a]).0@ != (#[trigger] after[b]).0@ by {
                            assert(after[a] == before[a]);
                            if b < before.len() {
                                assert(after[b] == before[b]);
                            }
                        }
                    }
                },
            }
        }
    }

    /// The skill stored under `id`.
    pub fn skill(&self, id: &str) -> (skill: Option<&ParsedSkill>)
        ensures
            match self.definition(id@) {
                Some(d) => skill == Some(&d.skill),
                None => skill is None,
            },
    {
        proof {
            lemma_definition_index(self.definitions@, id@);
        }
        match self.find(id) {
            Some(i) => Some(&self.definitions[i].1.skill),
            None => None,
        }
    }

    /// The skill stored under `id`, if its activation condition holds in `env`.
    pub fn active_skill(&self, id: &str, env: &ActivationEnvironment) -> (skill: Option<&ParsedSkill>)
        ensures
            match self.definition(id@) {
                Some(d) => skill == (if activation_holds(d.activation, *env) { Some(&d.skill) } else { None }),
                None => skill is None,
            },
    {
        proof {
            lemma_definition_index(self.definitions@, id@);
        }
        match self.find(id) {
            Some(i) => {
                let definition = &self.definitions[i].1;
                if definition.activation.is_enabled(env) {
                    Some(&definition.skill)
                } else {
                    None
                }
            },
            None => None,
        }
    }

    /// Position of a definition whose skill lives at `path`.
    fn position_of_path(&self, path: &str) -> (index: Option<usize>)
        ensures
            match index {
                Some(i) => i < self.definitions@.len() && self.definitions@[i as int].1.skill.path@ == path@,
                None => !has_skill_at(self.definitions@, path@),
            },
    {
        let n = self.definitions.len();
        let mut i: usize = 0;
        while i < n
            invariant
                n == self.definitions@.len(),
                i <= n,
                forall|k: int| 0 <= k < i ==> (#[trigger] self.definitions@[k]).1.skill.path@ != path@,
            decreases n - i,
        {
            if str_eq(self.definitions[i].1.skill.path.as_str(), path) {
                return Some(i);
            }
            i = i + 1;
        }
        None
    }

    /// A skill of the catalog whose `SKILL.md` is at `path`.
    pub fn skill_by_path(&self, path: &str) -> (skill: Option<&ParsedSkill>)
        ensures
            path_lookup(self.definitions@, path@, copied(skill)),
    {
        match self.position_of_path(path) {
            Some(i) => Some(&self.definitions[i].1.skill),
            None => None,
        }
    }

    /// Like [`Self::skill_by_path`], but only when the found skill's
    /// activation condition holds in `env`.
    pub fn active_skill_by_path(&self, path: &str, env: &ActivationEnvironment) -> (skill: Option<&ParsedSkill>)
        ensures
            active_path_lookup(self.definitions@, path@, *env, copied(skill)),
    {
        match self.position_of_path(path) {
            Some(i) => {
                let definition = &self.definitions[i].1;
                if definition.activation.is_enabled(env) {
                    Some(&definition.skill)
                } else {
                    None
                }
            },
            None => None,
        }
    }

    /// The id of a skill of the catalog whose `SKILL.md` is at `path`.
    pub fn reference_for_path(&self, path: &str) -> (id: Option<String>)
        ensures
            id is None <==> !has_skill_at(self.definitions@, path@),
            id matches Some(i) ==> exists|k: int|
                0 <= k < self.definitions@.len() && (#[trigger] self.definitions@[k]).0@ == i@
                    && self.definitions@[k].1.skill.path@ == path@,
    {
        match self.position_of_path(path) {
            Some(i) => Some(self.definitions[i].0.clone()),
            None => None,
        }
    }

    /// Builds a catalog from definitions received from a remote host. A
    /// skill that needs the Figma MCP server gets Figma's icon, the others
    /// get their icon by id; a later definition replaces an earlier one
    /// with the same id.
    pub fn from_definitions(definitions: Vec<(String, ParsedSkill, BundledSkillActivation)>) -> (catalog: BundledSkill)
        ensures
            catalog.wf(),
            forall|id: Seq<char>| #[trigger] catalog.definition(id) == received_definition(definitions@, id),
    {
        let mut catalog = BundledSkill::new();
        let ghost defs = definitions@;
        for entry in it: definitions.into_iter()
            invariant
                catalog.wf(),
                it.seq() == defs,
                forall|id: Seq<char>| #[trigger] catalog.definition(id) == received_definition(defs.take(it.index() as int), id),
        {
            let ghost i = it.index() as int;
            let (id, skill, activation) = entry;
            let icon = match &activation {
                BundledSkillActivation::RequiresMcp(McpIntegration::Figma) => Icon::Figma,
                _ => icon_for_bundled_skill(id.as_str()),
            };
            let ghost key = id@;
            catalog.insert(id, BundledSkillDefinition { skill, activation, icon });
            proof {
                let prefix = defs.take(i + 1);
                assert(prefix.drop_last() =~= defs.take(i));
                assert(prefix.last() == defs[i]);
                assert forall|other: Seq<char>| #[trigger] catalog.definition(other) == received_definition(prefix, other) by {
                    if other != key {
                        assert(received_definition(prefix, other) == received_definition(defs.take(i), other));
                    }
                }
            }
        }
        proof {
            assert(defs.take(defs.len() as int) =~= defs);
        }
        catalog
    }
}

/// How a listed skill is referenced: by its bundled id, or by the path of
/// its `SKILL.md`.
#[derive(Debug, Clone)]
pub enum SkillReference {
    BundledSkillId(String),
    Path(String),
}

/// A skill as it is listed: its reference, the skill, and its icon.
#[derive(Debug)]
pub struct SkillDescriptor {
    pub reference: SkillReference,
    pub skill: ParsedSkill,
    pub icon: Icon,
}

/// The descriptors of the definitions whose activation holds in `env`, in
/// catalog order; each is referenced by its `SKILL.md` path when `by_path`
/// is set, by its bundled id otherwise.
pub open spec fn active_descriptors_of(
    defs: Seq<(String, BundledSkillDefinition)>,
    env: ActivationEnvironment,
    by_path: bool,
) -> Seq<SkillDescriptor>
    decreases defs.len(),
{
    if defs.len() == 0 {
        Seq::empty()
    } else {
        let rest = active_descriptors_of(defs.drop_last(), env, by_path);
        let entry = defs.last();
        if activation_holds(entry.1.activation, env) {
            let reference = if by_path {
                SkillReference::Path(entry.1.skill.path)
            } else {
                SkillReference::BundledSkillId(entry.0)
            };
            rest.push(SkillDescriptor { reference, skill: entry.1.skill, icon: entry.1.icon })
        } else {
            rest
        }
    }
}

impl ParsedSkill {
    /// A copy of the skill.
    pub fn duplicate(&self) -> (copy: ParsedSkill)
        ensures
            copy == *self,
    {
        ParsedSkill { path: self.path.clone(), content: self.content.clone() }
    }
}

impl BundledSkill {
    fn descriptors(&self, env: &ActivationEnvironment, by_path: bool) -> (out: Vec<SkillDescriptor>)
        ensures
            out@ == active_descriptors_of(self.definitions@, *env, by_path),
    {
        let mut out: Vec<SkillDescriptor> = Vec::new();
        let n = self.definitions.len();
        let mut i: usize = 0;
        while i < n
            invariant
                n == self.definitions@.len(),
                i <= n,
                out@ == active_descriptors_of(self.definitions@.take(i as int), *env, by_path),
            decreases n - i,
        {
            proof {
                assert(self.definitions@.take(i + 1).drop_last() =~= self.definitions@.take(i as int));
            }
            let entry = &self.definitions[i];
            if entry.1.activation.is_enabled(env) {
                let reference = if by_path {
                    SkillReference::Path(entry.1.skill.path.clone())
                } else {
                    SkillReference::BundledSkillId(entry.0.clone())
                };
                out.push(SkillDescriptor { reference, skill: entry.1.skill.duplicate(), icon: entry.1.icon });
            }
            i = i + 1;
        }
        proof {
            assert(self.definitions@.take(n as int) =~= self.definitions@);
        }
        out
    }

    /// The descriptors of the skills whose activation holds in `env`, each
    /// referenced by its bundled id.
    pub fn active_descriptors(&self, env: &ActivationEnvironment) -> (out: Vec<SkillDescriptor>)
        ensures
            out@ == active_descriptors_of(self.definitions@, *env, false),
    {
        self.descriptors(env, false)
    }

    /// The descriptors of the skills whose activation holds in `env`, each
    /// referenced by the path of its `SKILL.md`, as a remote host's catalog
    /// lists them: such a reference resolves back to this catalog.
    pub fn active_path_referenced_descriptors(&self, env: &ActivationEnvironment) -> (out: Vec<SkillDescriptor>)
        ensures
            out@ == active_descriptors_of(self.definitions@, *env, true),
    {
        self.descriptors(env, true)
    }
}

/// Where the skills of a conversation run: locally, restored for display
/// only, on a connected remote host, or nowhere.
#[derive(Debug, Clone)]
pub enum SkillPathOrigin {
    Local,
    RestoredDisplayOnly,
    Remote { host_id: String },
    Unavailable,
}

/// A path on a remote host.
#[derive(Debug, Clone)]
pub struct RemotePath {
    pub host_id: String,
    pub path: String,
}

/// The value stored under `key` by the last entry with that key.
pub open spec fn keyed_value<V>(entries: Seq<(String, V)>, key: Seq<char>) -> Option<V>
    decreases entries.len(),
{
    if entries.len() == 0 {
        None
    } else if entries.last().0@ == key {
        Some(entries.last().1)
    } else {
        keyed_value(entries.drop_last(), key)
    }
}

/// The entries whose key is not `key`, in order.
pub open spec fn without_key<V>(entries: Seq<(String, V)>, key: Seq<char>) -> Seq<(String, V)>
    decreases entries.len(),
{
    if entries.len() == 0 {
        entries
    } else if entries.last().0@ == key {
        without_key(entries.drop_last(), key)
    } else {
        without_key(entries.drop_last(), key).push(entries.last())
    }
}

/// The keyed entries as a map.
pub open spec fn keyed_map<V>(entries: Seq<(String, V)>) -> Map<Seq<char>, V> {
    Map::new(|k: Seq<char>| keyed_value(entries, k) is Some, |k: Seq<char>| keyed_value(entries, k).unwrap())
}

proof fn lemma_without_key<V>(entries: Seq<(String, V)>, key: Seq<char>, other: Seq<char>)
    ensures
        keyed_value(without_key(entries, key), other) == (if other == key { None } else { keyed_value(entries, other) }),
    decreases entries.len(),
{
    if entries.len() > 0 {
        lemma_without_key(entries.drop_last(), key, other);
        if entries.last().0@ != key {
            assert(without_key(entries, key).drop_last() =~= without_key(entries.drop_last(), key));
        }
    }
}

/// Position of the last entry with key `key`.
fn find_key<V>(entries: &Vec<(String, V)>, key: &str) -> (index: Option<usize>)
    ensures
        match index {
            Some(i) => i < entries@.len() && entries@[i as int].0@ == key@
                && keyed_value(entries@, key@) == Some(entries@[i as int].1),
            None => keyed_value(entries@, key@) is None,
        },
{
    let mut i = entries.len();
    assert(entries@.take(i as int) =~= entries@);
    while i > 0
        invariant
            i <= entries@.len(),
            keyed_value(entries@, key@) == keyed_value(entries@.take(i as int), key@),
        decreases i,
    {
        assert(entries@.take(i as int).drop_last() =~= entries@.take(i - 1));
        if str_eq(entries[i - 1].0.as_str(), key) {
            return Some(i - 1);
        }
        i = i - 1;
    }
    None
}

/// A skill read through a reference, as a value.
pub open spec fn copied(skill: Option<&ParsedSkill>) -> Option<ParsedSkill> {
    match skill {
        Some(s) => Some(*s),
        None => None,
    }
}

/// The skill stored under `id` in `catalog` when its activation holds in `env`.
pub open spec fn active_definition_skill(catalog: BundledSkill, id: Seq<char>, env: ActivationEnvironment) -> Option<ParsedSkill> {
    match catalog.definition(id) {
        Some(d) => if activation_holds(d.activation, env) { Some(d.skill) } else { None },
        None => None,
    }
}

/// Catalogs of bundled skills for the local host and the connected remote
/// hosts, by host id.
#[derive(Debug)]
pub struct BundledSkills {
    pub local: BundledSkill,
    pub remote_by_host: Vec<(String, BundledSkill)>,
}

impl BundledSkills {
    /// The remote catalogs by host id.
    pub open spec fn remote_view(&self) -> Map<Seq<char>, BundledSkill> {
        keyed_map(self.remote_by_host@)
    }

    /// The catalog an origin selects: the local one for local and restored
    /// conversations, the host's one for a remote conversation.
    pub open spec fn catalog_for_origin(&self, origin: SkillPathOrigin) -> Option<BundledSkill> {
        match origin {
            SkillPathOrigin::Local | SkillPathOrigin::RestoredDisplayOnly => Some(self.local),
            SkillPathOrigin::Remote { host_id } => keyed_value(self.remote_by_host@, host_id@),
            SkillPathOrigin::Unavailable => None,
        }
    }

    /// No catalogs.
    pub fn new() -> (skills: BundledSkills)
        ensures
            skills.local.definitions@.len() == 0,
            skills.remote_view() == Map::<Seq<char>, BundledSkill>::empty(),
    {
        let skills = BundledSkills { local: BundledSkill::new(), remote_by_host: Vec::new() };
        assert(skills.remote_view() =~= Map::<Seq<char>, BundledSkill>::empty());
        skills
    }

    /// Replaces the local catalog.
    pub fn set_local(&mut self, bundled_skill: BundledSkill)
        ensures
            final(self).local == bundled_skill,
            final(self).remote_view() == old(self).remote_view(),
    {
        self.local = bundled_skill;
    }

    /// A bundled reference to the local skill whose `SKILL.md` is at `path`.
    pub fn reference_for_path(&self, path: &str) -> (id: Option<String>)
        ensures
            id is None <==> !has_skill_at(self.local.definitions@, path@),
            id matches Some(i) ==> exists|k: int|
                0 <= k < self.local.definitions@.len() && (#[trigger] self.local.definitions@[k]).0@ == i@
                    && self.local.definitions@[k].1.skill.path@ == path@,
    {
        self.local.reference_for_path(path)
    }

    /// The local skill stored under `id`.
    pub fn local_skill(&self, id: &str) -> (skill: Option<&ParsedSkill>)
        ensures
            copied(skill) == (match self.local.definition(id@) {
                Some(d) => Some(d.skill),
                None => None,
            }),
    {
        self.local.skill(id)
    }

    /// The catalog of a connected remote host.
    pub fn remote(&self, host_id: &str) -> (catalog: Option<&BundledSkill>)
        ensures
            match keyed_value(self.remote_by_host@, host_id@) {
                Some(c) => catalog == Some(&c),
                None => catalog is None,
            },
            catalog is Some <==> self.remote_view().dom().contains(host_id@),
    {
        match find_key(&self.remote_by_host, host_id) {
            Some(i) => Some(&self.remote_by_host[i].1),
            None => None,
        }
    }

    /// The active skills listed for a conversation of `path_origin`: the
    /// local catalog's by id, a remote host's by path, none for a remote
    /// host without a catalog or an unavailable origin.
    pub fn active_descriptors(&self, path_origin: &SkillPathOrigin, env: &ActivationEnvironment) -> (out: Vec<SkillDescriptor>)
        ensures
            out@ == (match *path_origin {
                SkillPathOrigin::Local | SkillPathOrigin::RestoredDisplayOnly => active_descriptors_of(self.local.definitions@, *env, false),
                SkillPathOrigin::Remote { host_id } => match keyed_value(self.remote_by_host@, host_id@) {
                    Some(c) => active_descriptors_of(c.definitions@, *env, true),
                    None => Seq::empty(),
                },
                SkillPathOrigin::Unavailable => Seq::empty(),
            }),
    {
        match path_origin {
            SkillPathOrigin::Local | SkillPathOrigin::RestoredDisplayOnly => self.local.active_descriptors(env),
            SkillPathOrigin::Remote { host_id } => match self.remote(host_id.as_str()) {
                Some(catalog) => catalog.active_path_referenced_descriptors(env),
                None => Vec::new(),
            },
            SkillPathOrigin::Unavailable => Vec::new(),
        }
    }

    /// The skill under `id` in the catalog that `origin` selects, if its
    /// activation condition holds in `env`.
    pub fn active_skill(&self, id: &str, path_origin: &SkillPathOrigin, env: &ActivationEnvironment) -> (skill: Option<&ParsedSkill>)
        ensures
            copied(skill) == (match self.catalog_for_origin(*path_origin) {
                Some(c) => active_definition_skill(c, id@, *env),
                None => None,
            }),
    {
        let catalog = match path_origin {
            SkillPathOrigin::Local | SkillPathOrigin::RestoredDisplayOnly => Some(&self.local),
            SkillPathOrigin::Remote { host_id } => self.remote(host_id.as_str()),
            SkillPathOrigin::Unavailable => None,
        };
        match catalog {
            Some(c) => c.active_skill(id, env),
            None => None,
        }
    }

    /// Removes all catalog state for a disconnected remote host.
    pub fn remove_remote(&mut self, host_id: &str)
        ensures
            final(self).local == old(self).local,
            final(self).remote_view() == old(self).remote_view().remove(host_id@),
    {
        let mut entries: Vec<(String, BundledSkill)> = Vec::new();
        std::mem::swap(&mut entries, &mut self.remote_by_host);
        let ghost all = entries@;
        for entry in it: entries.into_iter()
            invariant
                it.seq() == all,
                self.remote_by_host@ == without_key(all.take(it.index() as int), host_id@),
                self.local == old(self).local,
        {
            let ghost i = it.index() as int;
            proof {
                assert(all.take(i + 1).drop_last() =~= all.take(i));
            }
            if !str_eq(entry.0.as_str(), host_id) {
                self.remote_by_host.push(entry);
            }
        }
        proof {
            assert(all.take(all.len() as int) =~= all);
            assert forall|k: Seq<char>| #[trigger] keyed_value(self.remote_by_host@, k) == (if k == host_id@ { None } else { keyed_value(all, k) }) by {
                lemma_without_key(all, host_id@, k);
            }
            assert(self.remote_view() =~= old(self).remote_view().remove(host_id@));
        }
    }

    /// Installs the catalog of a connected remote host, replacing the one
    /// from an earlier connection.
    pub fn insert_remote(&mut self, host_id: String, bundled_skill: BundledSkill)
        ensures
            final(self).local == old(self).local,
            final(self).remote_view() == old(self).remote_view().insert(host_id@, bundled_skill),
    {
        self.remove_remote(host_id.as_str());
        let ghost removed = self.remote_by_host@;
        let ghost key = host_id@;
        self.remote_by_host.push((host_id, bundled_skill));
        proof {
            assert(self.remote_by_host@.drop_last() =~= removed);
            let before = old(self).remote_view();
            assert(keyed_map(removed) == before.remove(key));
            assert forall|k: Seq<char>| #[trigger] keyed_value(self.remote_by_host@, k) == (if k == key { Some(bundled_skill) } else { keyed_value(removed, k) }) by {}
            assert forall|k: Seq<char>| k != key implies (#[trigger] keyed_value(removed, k) is Some) == before.dom().contains(k)
                && (before.dom().contains(k) ==> keyed_value(removed, k).unwrap() == before[k]) by {
                let m = keyed_map(removed);
                assert(m.dom().contains(k) == keyed_value(removed, k) is Some);
                assert(before.remove(key).dom().contains(k) == before.dom().contains(k));
                if before.dom().contains(k) {
                    assert(m[k] == keyed_value(removed, k).unwrap());
                    assert(before.remove(key)[k] == before[k]);
                }
            }
            assert(self.remote_view() =~= before.insert(key, bundled_skill));
        }
    }

    /// The skill at a remote path, looked up in the catalog of the host that
    /// owns the path.
    pub fn remote_skill_by_path(&self, path: &RemotePath) -> (skill: Option<&ParsedSkill>)
        ensures
            match keyed_value(self.remote_by_host@, path.host_id@) {
                Some(c) => path_lookup(c.definitions@, path.path@, copied(skill)),
                None => skill is None,
            },
    {
        match self.remote(path.host_id.as_str()) {
            Some(c) => c.skill_by_path(path.path.as_str()),
            None => None,
        }
    }

    /// Like [`Self::remote_skill_by_path`], but only when the skill's
    /// activation condition holds in `env`.
    pub fn remote_active_skill_by_path(&self, path: &RemotePath, env: &ActivationEnvironment) -> (skill: Option<&ParsedSkill>)
        ensures
            match keyed_value(self.remote_by_host@, path.host_id@) {
                Some(c) => active_path_lookup(c.definitions@, path.path@, *env, copied(skill)),
                None => skill is None,
            },
    {
        match self.remote(path.host_id.as_str()) {
            Some(c) => c.active_skill_by_path(path.path.as_str(), env),
            None => None,
        }
    }
}

/// Disconnecting a host undoes its connection: removing the catalog of a
/// host that had none before it was installed gives back the catalogs as
/// they were.
pub proof fn lemma_remove_remote_undoes_insert_remote(before: Map<Seq<char>, BundledSkill>, host_id: Seq<char>, catalog: BundledSkill)
    requires
        !before.dom().contains(host_id),
    ensures
        before.insert(host_id, catalog).remove(host_id) == before,
{
    assert(before.insert(host_id, catalog).remove(host_id) =~= before);
}

/// Reinstalling a host's catalog replaces the earlier one: the catalogs are
/// those after installing only the latest.
pub proof fn lemma_insert_remote_replaces(before: Map<Seq<char>, BundledSkill>, host_id: Seq<char>, first: BundledSkill, second: BundledSkill)
    ensures
        before.insert(host_id, first).insert(host_id, second) == before.insert(host_id, second),
{
    assert(before.insert(host_id, first).insert(host_id, second) =~= before.insert(host_id, second));
}

/// The catalog entry built from the last received definition with id `id`.
pub open spec fn received_definition(defs: Seq<(String, ParsedSkill, BundledSkillActivation)>, id: Seq<char>) -> Option<BundledSkillDefinition>
    decreases defs.len(),
{
    if defs.len() == 0 {
        None
    } else if defs.last().0@ == id {
        Some(BundledSkillDefinition {
            skill: defs.last().1,
            activation: defs.last().2,
            icon: icon_for_definition(id, defs.last().2),
        })
    } else {
        received_definition(defs.drop_last(), id)
    }
}

proof fn lemma_same_ids(a: Seq<(String, BundledSkillDefinition)>, b: Seq<(String, BundledSkillDefinition)>, id: Seq<char>)
    requires
        a.len() == b.len(),
        forall|k: int| 0 <= k < a.len() ==> (#[trigger] a[k]).0@ == b[k].0@,
    ensures
        definition_index(a, id) == definition_index(b, id),
    decreases a.len(),
{
    if a.len() > 0 {
        assert(a.last().0@ == b.last().0@);
        assert forall|k: int| 0 <= k < a.drop_last().len() implies (#[trigger] a.drop_last()[k]).0@ == b.drop_last()[k].0@ by {
            assert(a[k].0@ == b[k].0@);
        }
        lemma_same_ids(a.drop_last(), b.drop_last(), id);
    }
}

} // verus!
