//! The coding agents whose skill directories are managed, and the state of
//! the links that lead from them to the primary directory.

use crate::text::{
    append_chars, chars_of, contains_literal, contains_text, is_literal, opt_text, same_chars,
    to_string,
};
use vstd::prelude::*;

verus! {

/// The agent whose skills directory is the primary one. Its names are not
/// built in: whoever sets the manager up supplies them.
#[derive(Clone, Debug)]
pub struct PrimaryAgent {
    pub id: String,
    pub display_name: String,
    /// Its directory below a home or project directory.
    pub dir: String,
    /// Its skills directory below a home or project directory.
    pub skills_dir: String,
}

/// The colour in which the primary agent is shown.
pub const PRIMARY_COLOR: &'static str = "#D97757";

/// One coding agent and where it keeps its skills.
#[derive(Clone, Debug)]
pub struct AgentConfig {
    pub id: String,
    pub name: String,
    pub display_name: String,
    /// The skills directory within a project.
    pub skills_dir: String,
    /// The skills directory below the home directory.
    pub global_skills_dir: String,
    /// `"native"` or `"symlink"`.
    pub compatibility: String,
    pub color: String,
}

/// What an [`AgentConfig`] holds.
pub struct AgentView {
    pub id: Seq<char>,
    pub name: Seq<char>,
    pub display_name: Seq<char>,
    pub skills_dir: Seq<char>,
    pub global_skills_dir: Seq<char>,
    pub compatibility: Seq<char>,
    pub color: Seq<char>,
}

impl View for AgentConfig {
    type V = AgentView;

    open spec fn view(&self) -> AgentView {
        AgentView {
            id: self.id@,
            name: self.name@,
            display_name: self.display_name@,
            skills_dir: self.skills_dir@,
            global_skills_dir: self.global_skills_dir@,
            compatibility: self.compatibility@,
            color: self.color@,
        }
    }
}

/// The views of a sequence of agents.
pub open spec fn agent_views(agents: Seq<AgentConfig>) -> Seq<AgentView> {
    agents.map_values(|a: AgentConfig| a@)
}

/// The agent with the given fields.
pub open spec fn agent_view(
    id: Seq<char>,
    name: Seq<char>,
    display_name: Seq<char>,
    skills_dir: Seq<char>,
    global_skills_dir: Seq<char>,
    compatibility: Seq<char>,
    color: Seq<char>,
) -> AgentView {
    AgentView { id, name, display_name, skills_dir, global_skills_dir, compatibility, color }
}

impl AgentConfig {
    pub fn new(
        id: &str,
        name: &str,
        display_name: &str,
        skills_dir: &str,
        global_skills_dir: &str,
        compatibility: &str,
        color: &str,
    ) -> (a: AgentConfig)
        ensures
            a@ == agent_view(
                id@,
                name@,
                display_name@,
                skills_dir@,
                global_skills_dir@,
                compatibility@,
                color@,
            ),
    {
        AgentConfig {
            id: id.to_owned(),
            name: name.to_owned(),
            display_name: display_name.to_owned(),
            skills_dir: skills_dir.to_owned(),
            global_skills_dir: global_skills_dir.to_owned(),
            compatibility: compatibility.to_owned(),
            color: color.to_owned(),
        }
    }

    /// A copy of this agent.
    pub fn duplicate(&self) -> (a: AgentConfig)
        ensures
            a@ == self@,
    {
        AgentConfig {
            id: self.id.clone(),
            name: self.name.clone(),
            display_name: self.display_name.clone(),
            skills_dir: self.skills_dir.clone(),
            global_skills_dir: self.global_skills_dir.clone(),
            compatibility: self.compatibility.clone(),
            color: self.color.clone(),
        }
    }
}

/// The primary agent as an entry of the table: it reads its own skills
/// directory as it is, in a project and below the home directory alike.
pub open spec fn primary_view(p: PrimaryAgent) -> AgentView {
    agent_view(p.id@, p.id@, p.display_name@, p.skills_dir@, p.skills_dir@, "native"@, PRIMARY_COLOR@)
}

/// The other agents that read the primary skills directory as it is.
pub open spec fn native_agents() -> Seq<AgentView> {
    seq![
        agent_view(
            "github-copilot"@,
            "github-copilot"@,
            "GitHub Copilot"@,
            ".github/skills"@,
            ".copilot/skills"@,
            "native"@,
            "#000000"@,
        ),
        agent_view(
            "cursor"@,
            "cursor"@,
            "Cursor"@,
            ".cursor/skills"@,
            ".cursor/skills"@,
            "native"@,
            "#00D4FF"@,
        ),
        agent_view(
            "opencode"@,
            "opencode"@,
            "OpenCode"@,
            ".opencode/skill"@,
            ".config/opencode/skill"@,
            "native"@,
            "#6366F1"@,
        ),
        agent_view(
            "antigravity"@,
            "antigravity"@,
            "Antigravity"@,
            ".agent/skills"@,
            ".gemini/antigravity/skills"@,
            "native"@,
            "#4285F4"@,
        ),
        agent_view(
            "amp"@,
            "amp"@,
            "Amp"@,
            ".amp/skills"@,
            ".amp/skills"@,
            "native"@,
            "#FF6B6B"@,
        ),
    ]
}

fn push_native_agents(v: &mut Vec<AgentConfig>)
    ensures
        agent_views(final(v)@) == agent_views(old(v)@) + native_agents(),
{
    v.push(
        AgentConfig::new(
            "github-copilot",
            "github-copilot",
            "GitHub Copilot",
            ".github/skills",
            ".copilot/skills",
            "native",
            "#000000",
        ),
    );
    v.push(
        AgentConfig::new(
            "cursor",
            "cursor",
            "Cursor",
            ".cursor/skills",
            ".cursor/skills",
            "native",
            "#00D4FF",
        ),
    );
    v.push(
        AgentConfig::new(
            "opencode",
            "opencode",
            "OpenCode",
            ".opencode/skill",
            ".config/opencode/skill",
            "native",
            "#6366F1",
        ),
    );
    v.push(
        AgentConfig::new(
            "antigravity",
            "antigravity",
            "Antigravity",
            ".agent/skills",
            ".gemini/antigravity/skills",
            "native",
            "#4285F4",
        ),
    );
    v.push(
        AgentConfig::new(
            "amp",
            "amp",
            "Amp",
            ".amp/skills",
            ".amp/skills",
            "native",
            "#FF6B6B",
        ),
    );
    assert(agent_views(v@) =~= agent_views(old(v)@) + native_agents());
}

/// The agents that reach the primary skills directory through a link.
pub open spec fn linked_agents() -> Seq<AgentView> {
    seq![
        agent_view(
            "codex"@,
            "codex"@,
            "OpenAI Codex"@,
            ".codex/skills"@,
            ".codex/skills"@,
            "symlink"@,
            "#10A37F"@,
        ),
        agent_view(
            "gemini-cli"@,
            "gemini-cli"@,
            "Gemini CLI"@,
            ".gemini/skills"@,
            ".gemini/skills"@,
            "symlink"@,
            "#8E44AD"@,
        ),
        agent_view(
            "windsurf"@,
            "windsurf"@,
            "Windsurf"@,
            ".windsurf/skills"@,
            ".codeium/windsurf/skills"@,
            "symlink"@,
            "#22C55E"@,
        ),
        agent_view(
            "roo"@,
            "roo"@,
            "Roo"@,
            ".roo/skills"@,
            ".roo/skills"@,
            "symlink"@,
            "#F59E0B"@,
        ),
        agent_view(
            "trae"@,
            "trae"@,
            "Trae"@,
            ".trae/skills"@,
            ".trae/skills"@,
            "symlink"@,
            "#EC4899"@,
        ),
    ]
}

fn push_linked_agents(v: &mut Vec<AgentConfig>)
    ensures
        agent_views(final(v)@) == agent_views(old(v)@) + linked_agents(),
{
    v.push(
        AgentConfig::new(
            "codex",
            "codex",
            "OpenAI Codex",
            ".codex/skills",
            ".codex/skills",
            "symlink",
            "#10A37F",
        ),
    );
    v.push(
        AgentConfig::new(
            "gemini-cli",
            "gemini-cli",
            "Gemini CLI",
            ".gemini/skills",
            ".gemini/skills",
            "symlink",
            "#8E44AD",
        ),
    );
    v.push(
        AgentConfig::new(
            "windsurf",
            "windsurf",
            "Windsurf",
            ".windsurf/skills",
            ".codeium/windsurf/skills",
            "symlink",
            "#22C55E",
        ),
    );
    v.push(
        AgentConfig::new(
            "roo",
            "roo",
            "Roo",
            ".roo/skills",
            ".roo/skills",
            "symlink",
            "#F59E0B",
        ),
    );
    v.push(
        AgentConfig::new(
            "trae",
            "trae",
            "Trae",
            ".trae/skills",
            ".trae/skills",
            "symlink",
            "#EC4899",
        ),
    );
    assert(agent_views(v@) =~= agent_views(old(v)@) + linked_agents());
}

/// Every agent: the primary one, the other native ones, then the linked ones.
pub open spec fn agent_table(primary: PrimaryAgent) -> Seq<AgentView> {
    seq![primary_view(primary)] + native_agents() + linked_agents()
}

/// Every agent that is known.
pub fn get_agent_configs(primary: &PrimaryAgent) -> (agents: Vec<AgentConfig>)
    ensures
        agent_views(agents@) == agent_table(*primary),
{
    let mut v: Vec<AgentConfig> = Vec::new();
    v.push(
        AgentConfig::new(
            primary.id.as_str(),
            primary.id.as_str(),
            primary.display_name.as_str(),
            primary.skills_dir.as_str(),
            primary.skills_dir.as_str(),
            "native",
            PRIMARY_COLOR,
        ),
    );
    assert(agent_views(v@) =~= seq![primary_view(*primary)]);
    push_native_agents(&mut v);
    push_linked_agents(&mut v);
    assert(agent_views(v@) =~= agent_table(*primary));
    v
}

/// Whether an agent reaches the primary directory through a link.
pub open spec fn is_linked(a: AgentView) -> bool {
    a.compatibility == "symlink"@
}

/// Those of the first `n` of `agents` that are linked, in order.
pub open spec fn linked_among(agents: Seq<AgentView>, n: nat) -> Seq<AgentView>
    decreases n,
{
    if n == 0 {
        Seq::<AgentView>::empty()
    } else if is_linked(agents[n - 1]) {
        linked_among(agents, (n - 1) as nat).push(agents[n - 1])
    } else {
        linked_among(agents, (n - 1) as nat)
    }
}

/// The linked agents of `agents`, in order.
pub fn select_linked(agents: &Vec<AgentConfig>) -> (linked: Vec<AgentConfig>)
    ensures
        agent_views(linked@) == linked_among(agent_views(agents@), agents@.len()),
{
    let mut out: Vec<AgentConfig> = Vec::new();
    let ghost all = agent_views(agents@);
    assert(agent_views(out@) =~= Seq::<AgentView>::empty());
    let mut i: usize = 0;
    while i < agents.len()
        invariant
            i <= agents.len(),
            all == agent_views(agents@),
            agent_views(out@) == linked_among(all, i as nat),
        decreases agents.len() - i,
    {
        let ghost before = agent_views(out@);
        assert(all[i as int] == agents@[i as int]@);
        let kind = chars_of(agents[i].compatibility.as_str());
        if is_literal(&kind, "symlink") {
            out.push(agents[i].duplicate());
            assert(agent_views(out@) =~= before.push(agents@[i as int]@));
        }
        i += 1;
    }
    out
}

/// The known agents that are linked are exactly those of `linked_agents`,
/// whatever the primary agent is called.
pub proof fn linked_agents_of_table(primary: PrimaryAgent)
    ensures
        linked_among(agent_table(primary), agent_table(primary).len()) == linked_agents(),
{
    reveal_strlit("native");
    reveal_strlit("symlink");
    reveal_with_fuel(linked_among, 12);
    assert("native"@ != "symlink"@) by {
        assert("native"@.len() != "symlink"@.len());
    }
    let t = agent_table(primary);
    assert(t.len() == 11);
    assert(linked_among(t, 11) =~= linked_agents());
}

/// The agents that reach the primary directory through a link.
pub fn get_symlink_agents() -> (agents: Vec<AgentConfig>)
    ensures
        agent_views(agents@) == linked_agents(),
{
    let mut v: Vec<AgentConfig> = Vec::new();
    assert(agent_views(v@) =~= Seq::<AgentView>::empty());
    push_linked_agents(&mut v);
    assert(agent_views(v@) =~= linked_agents());
    v
}

/// The state of the link that leads from one agent's directory to the primary one.
#[derive(Clone, Debug)]
pub struct SymlinkStatus {
    pub agent_id: String,
    pub agent_name: String,
    /// The directory that the link is meant to lead to.
    pub target_path: String,
    pub link_path: String,
    pub exists: bool,
    pub is_valid: bool,
    pub error: Option<String>,
}

/// What a [`SymlinkStatus`] holds.
pub struct StatusView {
    pub agent_id: Seq<char>,
    pub agent_name: Seq<char>,
    pub target_path: Seq<char>,
    pub link_path: Seq<char>,
    pub exists: bool,
    pub is_valid: bool,
    pub error: Option<Seq<char>>,
}

impl View for SymlinkStatus {
    type V = StatusView;

    open spec fn view(&self) -> StatusView {
        StatusView {
            agent_id: self.agent_id@,
            agent_name: self.agent_name@,
            target_path: self.target_path@,
            link_path: self.link_path@,
            exists: self.exists,
            is_valid: self.is_valid,
            error: opt_text(self.error),
        }
    }
}

/// The views of a sequence of statuses.
pub open spec fn status_views(v: Seq<SymlinkStatus>) -> Seq<StatusView> {
    v.map_values(|s: SymlinkStatus| s@)
}

/// What was found at the place of an agent's link.
#[derive(Clone, Debug)]
pub enum LinkProbe {
    /// Nothing is there.
    Absent,
    /// Something is there that is no link.
    NotALink,
    /// A link is there. `is_source` says whether the path it leads to equals
    /// the primary directory.
    LinksTo { target: String, is_source: bool },
}

/// The place of one agent's link, and what was found there.
#[derive(Clone, Debug)]
pub struct LinkState {
    pub agent: AgentConfig,
    pub link_path: String,
    pub probe: LinkProbe,
}

/// What is said of a link that leads elsewhere.
pub const POINTS_TO: &'static str = "Points to: ";

/// What is said of a path that is taken by something that is no link.
pub const NOT_A_SYMLINK: &'static str = "Path exists but is not a symlink";

/// What is said when a link cannot be made because something else is in its place.
pub const REMOVE_MANUALLY: &'static str =
    "Path exists and is not a symlink. Please remove it manually.";

/// What is said when something that is no link was to be removed.
pub const REFUSE_TO_REMOVE: &'static str = "Path is not a symlink, refusing to remove";

/// What is said of an agent id that no linked agent has.
pub const AGENT_NOT_FOUND: &'static str = "Agent not found";

/// Whether a link that leads to `target` is valid: it leads to the primary
/// directory, or its target names the primary skills directory `skills_dir`.
pub open spec fn link_is_valid(target: Seq<char>, is_source: bool, skills_dir: Seq<char>) -> bool {
    is_source || contains_text(target, skills_dir)
}

/// The status of an agent's link, from what was found at its place.
pub open spec fn status_for(
    agent: AgentView,
    skills_dir: Seq<char>,
    source_dir: Seq<char>,
    link_path: Seq<char>,
    probe: LinkProbe,
) -> StatusView {
    StatusView {
        agent_id: agent.id,
        agent_name: agent.display_name,
        target_path: source_dir,
        link_path,
        exists: !(probe is Absent),
        is_valid: match probe {
            LinkProbe::LinksTo { target, is_source } => link_is_valid(target@, is_source, skills_dir),
            _ => false,
        },
        error: match probe {
            LinkProbe::Absent => None,
            LinkProbe::NotALink => Some(NOT_A_SYMLINK@),
            LinkProbe::LinksTo { target, is_source } => if link_is_valid(target@, is_source, skills_dir) {
                None
            } else {
                Some(POINTS_TO@ + target@)
            },
        },
    }
}

/// The status of an agent's link, from what was found at its place.
pub fn symlink_status(
    agent: &AgentConfig,
    skills_dir: &str,
    source_dir: &str,
    link_path: &str,
    probe: &LinkProbe,
) -> (s: SymlinkStatus)
    ensures
        s@ == status_for(agent@, skills_dir@, source_dir@, link_path@, *probe),
{
    let (exists, is_valid, error) = match probe {
        LinkProbe::Absent => (false, false, None),
        LinkProbe::NotALink => (true, false, Some(NOT_A_SYMLINK.to_owned())),
        LinkProbe::LinksTo { target, is_source } => {
            let t = chars_of(target.as_str());
            let valid = *is_source || contains_literal(&t, skills_dir);
            if valid {
                (true, true, None)
            } else {
                let mut msg = chars_of(POINTS_TO);
                append_chars(&mut msg, &t);
                (true, false, Some(to_string(&msg)))
            }
        },
    };
    SymlinkStatus {
        agent_id: agent.id.clone(),
        agent_name: agent.display_name.clone(),
        target_path: source_dir.to_owned(),
        link_path: link_path.to_owned(),
        exists,
        is_valid,
        error,
    }
}

/// The statuses of the first `n` links.
pub open spec fn statuses_for(
    skills_dir: Seq<char>,
    source_dir: Seq<char>,
    links: Seq<LinkState>,
    n: nat,
) -> Seq<StatusView>
    decreases n,
{
    if n == 0 {
        Seq::<StatusView>::empty()
    } else {
        statuses_for(skills_dir, source_dir, links, (n - 1) as nat).push(
            status_for(
                links[n - 1].agent@,
                skills_dir,
                source_dir,
                links[n - 1].link_path@,
                links[n - 1].probe,
            ),
        )
    }
}

/// The status of every link, in the order given.
pub fn check_symlink_status(skills_dir: &str, source_dir: &str, links: &Vec<LinkState>) -> (statuses:
    Vec<SymlinkStatus>)
    ensures
        status_views(statuses@) == statuses_for(skills_dir@, source_dir@, links@, links@.len()),
{
    let mut out: Vec<SymlinkStatus> = Vec::new();
    assert(status_views(out@) =~= Seq::<StatusView>::empty());
    let mut i: usize = 0;
    while i < links.len()
        invariant
            i <= links.len(),
            status_views(out@) == statuses_for(skills_dir@, source_dir@, links@, i as nat),
        decreases links.len() - i,
    {
        let ghost before = status_views(out@);
        let link = &links[i];
        let status = symlink_status(
            &link.agent,
            skills_dir,
            source_dir,
            link.link_path.as_str(),
            &link.probe,
        );
        out.push(status);
        assert(status_views(out@) =~= before.push(status@));
        i += 1;
    }
    out
}

/// Whether `i` is the index of the first of `agents` whose id is `id`.
pub open spec fn first_with_id(agents: Seq<AgentView>, id: Seq<char>, i: int) -> bool {
    &&& 0 <= i < agents.len()
    &&& agents[i].id == id
    &&& forall|k: int| 0 <= k < i ==> (#[trigger] agents[k]).id != id
}

/// The first linked agent whose id is `agent_id`; `None` where no linked
/// agent has that id.
pub fn find_symlink_agent(agent_id: &str) -> (found: Option<AgentConfig>)
    ensures
        match found {
            Some(agent) => exists|i: int|
                first_with_id(linked_agents(), agent_id@, i) && linked_agents()[i] == agent@,
            None => forall|i: int|
                0 <= i < linked_agents().len() ==> (#[trigger] linked_agents()[i]).id != agent_id@,
        },
{
    let agents = get_symlink_agents();
    let wanted = chars_of(agent_id);
    let ghost all = agent_views(agents@);
    let mut i: usize = 0;
    while i < agents.len()
        invariant
            i <= agents.len(),
            all == agent_views(agents@),
            all == linked_agents(),
            wanted@ == agent_id@,
            forall|k: int| 0 <= k < i ==> (#[trigger] all[k]).id != agent_id@,
        decreases agents.len() - i,
    {
        assert(all[i as int] == agents@[i as int]@);
        let id = chars_of(agents[i].id.as_str());
        if same_chars(&id, &wanted) {
            assert(first_with_id(linked_agents(), agent_id@, i as int));
            return Some(agents[i].duplicate());
        }
        i += 1;
    }
    None
}

/// What to do at the place of a link that is to be made.
#[derive(Clone, Copy, Debug, PartialEq, Eq, Structural)]
pub enum LinkAction {
    /// Make the link.
    Create,
    /// Remove the link that is there, then make the new one.
    Replace,
    /// Leave what is there; it is no link.
    Refuse,
}

/// What to do at the place of a link that is to be made: make it where
/// nothing is there, replace a link, and leave anything else alone.
pub fn plan_link(probe: &LinkProbe) -> (action: LinkAction)
    ensures
        action == match *probe {
            LinkProbe::Absent => LinkAction::Create,
            LinkProbe::LinksTo { .. } => LinkAction::Replace,
            LinkProbe::NotALink => LinkAction::Refuse,
        },
{
    match probe {
        LinkProbe::Absent => LinkAction::Create,
        LinkProbe::LinksTo { .. } => LinkAction::Replace,
        LinkProbe::NotALink => LinkAction::Refuse,
    }
}

/// The status after a link was made, or was refused because something that
/// is no link stands in its place.
pub fn create_symlink(agent: &AgentConfig, source_dir: &str, link_path: &str, action: LinkAction) -> (s:
    SymlinkStatus)
    ensures
        s@ == (StatusView {
            agent_id: agent@.id,
            agent_name: agent@.display_name,
            target_path: source_dir@,
            link_path: link_path@,
            exists: true,
            is_valid: action != LinkAction::Refuse,
            error: if action == LinkAction::Refuse {
                Some(REMOVE_MANUALLY@)
            } else {
                None
            },
        }),
{
    let refused = action == LinkAction::Refuse;
    SymlinkStatus {
        agent_id: agent.id.clone(),
        agent_name: agent.display_name.clone(),
        target_path: source_dir.to_owned(),
        link_path: link_path.to_owned(),
        exists: true,
        is_valid: !refused,
        error: if refused {
            Some(REMOVE_MANUALLY.to_owned())
        } else {
            None
        },
    }
}

/// The status of an agent whose link could not be made, with the reason.
pub fn failed_symlink(agent: &AgentConfig, error: String) -> (s: SymlinkStatus)
    ensures
        s@ == (StatusView {
            agent_id: agent@.id,
            agent_name: agent@.display_name,
            target_path: Seq::<char>::empty(),
            link_path: Seq::<char>::empty(),
            exists: false,
            is_valid: false,
            error: Some(error@),
        }),
{
    SymlinkStatus {
        agent_id: agent.id.clone(),
        agent_name: agent.display_name.clone(),
        target_path: String::new(),
        link_path: String::new(),
        exists: false,
        is_valid: false,
        error: Some(error),
    }
}

/// The outcome of removing an agent's link: the status of a place that is
/// now empty, or a refusal where something that is no link stands there.
pub fn remove_symlink(agent: &AgentConfig, link_path: &str, probe: &LinkProbe) -> (r: Result<
    SymlinkStatus,
    String,
>)
    ensures
        r is Err <==> *probe is NotALink,
        r matches Err(e) ==> e@ == REFUSE_TO_REMOVE@,
        r matches Ok(s) ==> s@ == (StatusView {
            agent_id: agent@.id,
            agent_name: agent@.display_name,
            target_path: Seq::<char>::empty(),
            link_path: link_path@,
            exists: false,
            is_valid: false,
            error: None,
        }),
{
    match probe {
        LinkProbe::NotALink => Err(REFUSE_TO_REMOVE.to_owned()),
        _ => Ok(
            SymlinkStatus {
                agent_id: agent.id.clone(),
                agent_name: agent.display_name.clone(),
                target_path: String::new(),
                link_path: link_path.to_owned(),
                exists: false,
                is_valid: false,
                error: None,
            },
        ),
    }
}

} // verus!
