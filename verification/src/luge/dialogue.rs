//! The dialogue sequencer: a strictly forward-only traversal of a
//! fixed script, scene by scene and line by line, driven by a
//! debounced continue action.

use vstd::prelude::*;
use vstd::string::StringExecFns;

verus! {

/// The scenes of the script, in playback order.
#[derive(Clone, Copy, PartialEq, Eq, Structural, Debug)]
pub enum SceneId {
    Intro,
    Shop,
}

impl SceneId {
    /// The scene that follows this one, if any.
    pub open spec fn spec_next(self) -> Option<SceneId> {
        match self {
            SceneId::Intro => Option::Some(SceneId::Shop),
            SceneId::Shop => Option::None,
        }
    }

    /// The scene that follows this one, if any.
    pub fn next(self) -> (r: Option<SceneId>)
        ensures
            r == self.spec_next(),
    {
        match self {
            SceneId::Intro => Option::Some(SceneId::Shop),
            SceneId::Shop => Option::None,
        }
    }
}

/// One scene of the script: an ordered list of lines and a flag set
/// once the scene has been exhausted.
pub struct Scene {
    pub id: SceneId,
    pub lines: Vec<String>,
    pub completed: bool,
}

/// Where the dialogue currently stands: the scene being played, the
/// line within it, and whether the sequencer still listens for the
/// continue action.
#[derive(Clone, Copy, PartialEq, Eq, Structural, Debug)]
pub struct DialogueState {
    pub current_scene: SceneId,
    pub line_index: usize,
    pub waiting_for_input: bool,
}

impl Default for DialogueState {
    fn default() -> (r: Self)
        ensures
            r == (DialogueState {
                current_scene: SceneId::Intro,
                line_index: 0usize,
                waiting_for_input: true,
            }),
    {
        DialogueState { current_scene: SceneId::Intro, line_index: 0, waiting_for_input: true }
    }
}

/// The index of the first scene with the given id, if any.
pub open spec fn spec_find_scene(s: Seq<Scene>, id: SceneId) -> Option<int>
    decreases s.len(),
{
    if s.len() == 0 {
        Option::None
    } else if s[0].id == id {
        Option::Some(0int)
    } else {
        match spec_find_scene(s.drop_first(), id) {
            Option::Some(k) => Option::Some(k + 1),
            Option::None => Option::None,
        }
    }
}

/// The line at `index` of the scene with the given id, if both exist.
pub open spec fn spec_get_line(s: Seq<Scene>, id: SceneId, index: int) -> Option<Seq<char>> {
    match spec_find_scene(s, id) {
        Option::None => Option::None,
        Option::Some(k) => if 0 <= index < s[k].lines@.len() {
            Option::Some(s[k].lines@[index]@)
        } else {
            Option::None
        },
    }
}

/// The script with the first scene of the given id marked completed;
/// unchanged if no scene has that id.
pub open spec fn spec_mark_completed(s: Seq<Scene>, id: SceneId) -> Seq<Scene> {
    match spec_find_scene(s, id) {
        Option::None => s,
        Option::Some(k) => s.update(
            k,
            Scene { id: s[k].id, lines: s[k].lines, completed: true },
        ),
    }
}

/// A scene that matches at index `k`, with no earlier match, is the
/// one `spec_find_scene` finds.
proof fn lemma_find_scene_at(s: Seq<Scene>, id: SceneId, k: int)
    requires
        0 <= k < s.len(),
        s[k].id == id,
        forall|j: int| 0 <= j < k ==> (#[trigger] s[j]).id != id,
    ensures
        spec_find_scene(s, id) == Option::Some(k),
    decreases k,
{
    if k > 0 {
        lemma_find_scene_at(s.drop_first(), id, k - 1);
    }
}

/// With no matching scene at all, `spec_find_scene` finds none.
proof fn lemma_find_scene_none(s: Seq<Scene>, id: SceneId)
    requires
        forall|j: int| 0 <= j < s.len() ==> (#[trigger] s[j]).id != id,
    ensures
        spec_find_scene(s, id) == Option::<int>::None,
    decreases s.len(),
{
    if s.len() > 0 {
        lemma_find_scene_none(s.drop_first(), id);
    }
}

/// The fixed script: the host of the luge lounge greets the player
/// over a handful of intro lines; the shop scene has no lines yet.
pub struct RickLines(pub Vec<Scene>);

impl RickLines {
    /// The canonical script: five intro lines and an empty shop scene,
    /// nothing completed yet.
    pub fn init() -> (r: Self)
        ensures
            r.0@.len() == 2,
            r.0@[0].id == SceneId::Intro,
            r.0@[0].completed == false,
            r.0@[0].lines@.len() == 5,
            r.0@[0].lines@[0]@
                == "Heya chump--errr, champ. Heh heh. Welcome ta Slick Rick's Luge Lounge. Da numbah one luge lounge in da lesser tri-state region."@,
            r.0@[0].lines@[1]@
                == "Take a seat. Bob a sled. Spend some moolah. Su money es mi money, amigo. Capice?"@,
            r.0@[0].lines@[2]@
                == "See dem stats der on da right? You can raise em by spendin Slick Coins, see?"@,
            r.0@[0].lines@[3]@
                == "Oh, ya ain't got none? No problemo, sonny. Just head on down da luge. You'll find plenty along da way."@,
            r.0@[0].lines@[4]@
                == "Just watch out for.... erm... OBSTACLES let's say. Roadblocks, if you will. Especially da ones wit da claws..."@,
            r.0@[1].id == SceneId::Shop,
            r.0@[1].completed == false,
            r.0@[1].lines@.len() == 0,
    {
        let mut intro_lines: Vec<String> = Vec::new();
        intro_lines.push(
            "Heya chump--errr, champ. Heh heh. Welcome ta Slick Rick's Luge Lounge. Da numbah one luge lounge in da lesser tri-state region.".to_owned(),
        );
        intro_lines.push(
            "Take a seat. Bob a sled. Spend some moolah. Su money es mi money, amigo. Capice?".to_owned(),
        );
        intro_lines.push(
            "See dem stats der on da right? You can raise em by spendin Slick Coins, see?".to_owned(),
        );
        intro_lines.push(
            "Oh, ya ain't got none? No problemo, sonny. Just head on down da luge. You'll find plenty along da way.".to_owned(),
        );
        intro_lines.push(
            "Just watch out for.... erm... OBSTACLES let's say. Roadblocks, if you will. Especially da ones wit da claws...".to_owned(),
        );
        let mut scenes: Vec<Scene> = Vec::new();
        scenes.push(Scene { id: SceneId::Intro, lines: intro_lines, completed: false });
        scenes.push(Scene { id: SceneId::Shop, lines: Vec::new(), completed: false });
        RickLines(scenes)
    }

    /// Look up the first scene with the given id.
    pub fn get_scene(&self, id: SceneId) -> (r: Option<&Scene>)
        ensures
            match spec_find_scene(self.0@, id) {
                Option::None => r.is_none(),
                Option::Some(k) => r.is_some() && *r.unwrap() == self.0@[k],
            },
    {
        let n = self.0.len();
        let mut i: usize = 0;
        while i < n
            invariant
                n == self.0@.len(),
                0 <= i <= n,
                forall|j: int| 0 <= j < i ==> (#[trigger] self.0@[j]).id != id,
            decreases n - i,
        {
            if self.0[i].id == id {
                proof {
                    lemma_find_scene_at(self.0@, id, i as int);
                }
                return Option::Some(&self.0[i]);
            }
            i = i + 1;
        }
        proof {
            lemma_find_scene_none(self.0@, id);
        }
        Option::None
    }

    /// Look up a line of a scene by id and index.
    pub fn get_line(&self, id: SceneId, index: usize) -> (r: Option<&str>)
        ensures
            r.is_some() == spec_get_line(self.0@, id, index as int).is_some(),
            r.is_some() ==> r.unwrap()@ == spec_get_line(self.0@, id, index as int).unwrap(),
    {
        match self.get_scene(id) {
            Option::None => Option::None,
            Option::Some(scene) => {
                if index < scene.lines.len() {
                    Option::Some(scene.lines[index].as_str())
                } else {
                    Option::None
                }
            },
        }
    }

    /// Mark the first scene with the given id completed.
    fn mark_completed(&mut self, id: SceneId)
        ensures
            final(self).0@ == spec_mark_completed(old(self).0@, id),
    {
        let n = self.0.len();
        let mut i: usize = 0;
        while i < n
            invariant
                n == self.0@.len(),
                0 <= i <= n,
                self.0@ == old(self).0@,
                forall|j: int| 0 <= j < i ==> (#[trigger] self.0@[j]).id != id,
            decreases n - i,
        {
            if self.0[i].id == id {
                proof {
                    lemma_find_scene_at(self.0@, id, i as int);
                }
                let mut scene = self.0.remove(i);
                scene.completed = true;
                self.0.insert(i, scene);
                proof {
                    assert(self.0@ =~= spec_mark_completed(old(self).0@, id));
                }
                return ;
            }
            i = i + 1;
        }
        proof {
            lemma_find_scene_none(self.0@, id);
        }
    }
}

/// One step of the dialogue relation: how a continue press (or its
/// absence) takes the sequencer from one state and script to the
/// next, and what text it displays. Without a press while waiting,
/// or while not waiting at all, nothing changes and nothing is
/// displayed. Otherwise the line index advances; a valid line of the
/// current scene is displayed; an exhausted scene is marked completed
/// and the script jumps to the next scene, showing its first line, or
/// — when the next scene is empty or there is none — the sequencer
/// stops waiting for input and clears the displayed text.
pub open spec fn spec_advance_rel(
    pre: DialogueState,
    pre_script: Seq<Scene>,
    pressed: bool,
    post: DialogueState,
    post_script: Seq<Scene>,
    text: Option<Seq<char>>,
) -> bool {
    &&& (!(pre.waiting_for_input && pressed) ==> {
        &&& post == pre
        &&& post_script == pre_script
        &&& text.is_none()
    })
    &&& (pre.waiting_for_input && pressed && spec_get_line(
        pre_script,
        pre.current_scene,
        pre.line_index + 1,
    ).is_some() ==> {
        &&& post_script == pre_script
        &&& post == (DialogueState {
            current_scene: pre.current_scene,
            line_index: (pre.line_index + 1) as usize,
            waiting_for_input: true,
        })
        &&& text == Option::Some(
            spec_get_line(pre_script, pre.current_scene, pre.line_index + 1).unwrap(),
        )
    })
    &&& (pre.waiting_for_input && pressed && spec_get_line(
        pre_script,
        pre.current_scene,
        pre.line_index + 1,
    ).is_none() && pre.current_scene.spec_next().is_some() && spec_get_line(
        pre_script,
        pre.current_scene.spec_next().unwrap(),
        0,
    ).is_some() ==> {
        &&& post_script == spec_mark_completed(pre_script, pre.current_scene)
        &&& post == (DialogueState {
            current_scene: pre.current_scene.spec_next().unwrap(),
            line_index: 0usize,
            waiting_for_input: true,
        })
        &&& text == Option::Some(
            spec_get_line(pre_script, pre.current_scene.spec_next().unwrap(), 0).unwrap(),
        )
    })
    &&& (pre.waiting_for_input && pressed && spec_get_line(
        pre_script,
        pre.current_scene,
        pre.line_index + 1,
    ).is_none() && pre.current_scene.spec_next().is_some() && spec_get_line(
        pre_script,
        pre.current_scene.spec_next().unwrap(),
        0,
    ).is_none() ==> {
        &&& post_script == spec_mark_completed(
            spec_mark_completed(pre_script, pre.current_scene),
            pre.current_scene.spec_next().unwrap(),
        )
        &&& post == (DialogueState {
            current_scene: pre.current_scene.spec_next().unwrap(),
            line_index: 0usize,
            waiting_for_input: false,
        })
        &&& text == Option::Some(Seq::<char>::empty())
    })
    &&& (pre.waiting_for_input && pressed && spec_get_line(
        pre_script,
        pre.current_scene,
        pre.line_index + 1,
    ).is_none() && pre.current_scene.spec_next().is_none() ==> {
        &&& post_script == spec_mark_completed(pre_script, pre.current_scene)
        &&& post == (DialogueState {
            current_scene: pre.current_scene,
            line_index: (pre.line_index + 1) as usize,
            waiting_for_input: false,
        })
        &&& text == Option::Some(Seq::<char>::empty())
    })
}

/// Advance the dialogue by one debounced continue press, as
/// `spec_advance_rel` describes. Returns the new text to display, or
/// `None` when nothing changes. Strictly forward-only: no branching,
/// no skip-back.
pub fn advance_dialogue(
    state: &mut DialogueState,
    lines: &mut RickLines,
    continue_pressed: bool,
) -> (text: Option<String>)
    requires
        old(state).waiting_for_input && continue_pressed ==> old(state).line_index < usize::MAX,
    ensures
        spec_advance_rel(
            *old(state),
            old(lines).0@,
            continue_pressed,
            *final(state),
            final(lines).0@,
            (if text.is_some() {
                Option::Some(text.unwrap()@)
            } else {
                Option::None
            }),
        ),
        old(state).waiting_for_input && continue_pressed && final(state).waiting_for_input
            ==> final(state).line_index < usize::MAX,
{
    if !state.waiting_for_input || !continue_pressed {
        return Option::None;
    }
    state.line_index = state.line_index + 1;
    let cur = state.current_scene;
    let shown = match lines.get_line(cur, state.line_index) {
        Option::Some(line) => Option::Some(line.to_owned()),
        Option::None => Option::None,
    };
    match shown {
        Option::Some(t) => {
            proof {
                let k = spec_find_scene(lines.0@, cur).unwrap();
                assert(lines.0@[k].lines.len() <= usize::MAX);
            }
            Option::Some(t)
        },
        Option::None => {
            match cur.next() {
                Option::Some(next_scene) => {
                    let first = match lines.get_line(next_scene, 0) {
                        Option::Some(line) => Option::Some(line.to_owned()),
                        Option::None => Option::None,
                    };
                    lines.mark_completed(cur);
                    state.current_scene = next_scene;
                    state.line_index = 0;
                    match first {
                        Option::Some(t) => Option::Some(t),
                        Option::None => {
                            lines.mark_completed(next_scene);
                            state.waiting_for_input = false;
                            Option::Some(String::new())
                        },
                    }
                },
                Option::None => {
                    lines.mark_completed(cur);
                    state.waiting_for_input = false;
                    Option::Some(String::new())
                },
            }
        },
    }
}

/// The dialogue traversal is strictly forward-only: one step never
/// leaves the current scene except for its successor, never rewinds
/// the line index within a scene, and never resumes waiting for input
/// once it has stopped.
pub proof fn lemma_advance_forward_only(
    pre: DialogueState,
    pre_script: Seq<Scene>,
    pressed: bool,
    post: DialogueState,
    post_script: Seq<Scene>,
    text: Option<Seq<char>>,
)
    requires
        spec_advance_rel(pre, pre_script, pressed, post, post_script, text),
        pre.waiting_for_input && pressed ==> pre.line_index < usize::MAX,
    ensures
        post.current_scene == pre.current_scene || Option::Some(post.current_scene)
            == pre.current_scene.spec_next(),
        post.current_scene == pre.current_scene ==> post.line_index == pre.line_index
            || post.line_index == pre.line_index + 1,
        post.waiting_for_input ==> pre.waiting_for_input,
{
}

} // verus!
