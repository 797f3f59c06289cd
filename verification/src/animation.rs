//! Which animation the fox plays, and where its player is found.

use vstd::prelude::*;
use crate::entity::EntityId;
use crate::fox_control::MoveKeys;

verus! {

/// The animation of a fox that stands.
pub const ANIMATION_IDLE: usize = 0;

/// The animation of a fox that walks.
pub const ANIMATION_WALK: usize = 1;

/// The animation of a fox that dashes.
pub const ANIMATION_DASH: usize = 2;

/// What a fox is playing. `G` is the caller's type for an animation graph
/// that is ready to play; the rules only keep them.
#[derive(Debug)]
pub struct FoxAnimationState<G> {
    pub is_moving: bool,
    pub current_animation: usize,
    pub animation_graphs: [Option<G>; 3],
}

impl<G> Default for FoxAnimationState<G> {
    /// A fox that stands, with no graph ready.
    fn default() -> (state: Self)
        ensures
            !state.is_moving,
            state.current_animation == ANIMATION_IDLE,
            forall|i: int| 0 <= i < 3 ==> (#[trigger] state.animation_graphs[i]) is None,
    {
        FoxAnimationState {
            is_moving: false,
            current_animation: 0,
            animation_graphs: [None, None, None],
        }
    }
}

/// What a fox ought to play in a frame.
#[derive(Clone, Copy, Debug, PartialEq, Eq, Structural)]
pub struct AnimationPlan {
    pub is_moving: bool,
    /// The animation to play.
    pub target: usize,
    /// Whether the graph of the target has yet to be built.
    pub needs_graph: bool,
}

/// A fox moves while it is possessed and a steering key is down.
pub open spec fn is_moving_spec(possessed: bool, held: MoveKeys) -> bool {
    possessed && held.any()
}

/// The animation for a fox: dashing, walking or standing.
pub open spec fn target_animation(moving: bool, dashing: bool) -> usize {
    if moving && dashing {
        ANIMATION_DASH
    } else if moving {
        ANIMATION_WALK
    } else {
        ANIMATION_IDLE
    }
}

/// Decides what a fox ought to play in a frame.
pub fn animation_plan<G>(
    state: &FoxAnimationState<G>,
    possessed: bool,
    held: MoveKeys,
    dashing: bool,
) -> (plan: AnimationPlan)
    ensures
        plan.is_moving == is_moving_spec(possessed, held),
        plan.target == target_animation(plan.is_moving, dashing),
        plan.needs_graph == state.animation_graphs[plan.target as int] is None,
{
    let is_moving = possessed && (held.w || held.s || held.a || held.d);
    let target = if is_moving && dashing {
        ANIMATION_DASH
    } else if is_moving {
        ANIMATION_WALK
    } else {
        ANIMATION_IDLE
    };
    let needs_graph = state.animation_graphs[target].is_none();
    AnimationPlan { is_moving: is_moving, target: target, needs_graph: needs_graph }
}

/// The graphs after a frame: a graph that was built goes into the place of
/// the target where that place was empty.
pub open spec fn graphs_after<G>(graphs: [Option<G>; 3], target: usize, built: Option<G>) -> Seq<
    Option<G>,
> {
    if graphs[target as int] is None && built is Some {
        graphs@.update(target as int, built)
    } else {
        graphs@
    }
}

/// Whether the fox changes to the target in this frame: it does where the
/// target is not what it plays and the graph of the target is ready.
pub open spec fn switches<G>(state: FoxAnimationState<G>, target: usize, built: Option<G>) -> bool {
    state.current_animation != target && graphs_after(state.animation_graphs, target, built)[target as int] is Some
}

/// Carries out a plan. `built` is the graph of the target where the caller
/// built one in this frame. Returns the animation to start, if the fox
/// changes to it; its graph is then found in the state.
pub fn play_fox_animation<G>(
    state: &mut FoxAnimationState<G>,
    plan: AnimationPlan,
    built: Option<G>,
) -> (start: Option<usize>)
    requires
        plan.target < 3,
    ensures
        final(state).animation_graphs@ == graphs_after(
            old(state).animation_graphs,
            plan.target,
            built,
        ),
        switches(*old(state), plan.target, built) ==> {
            &&& start == Some(plan.target)
            &&& final(state).current_animation == plan.target
            &&& final(state).is_moving == plan.is_moving
        },
        !switches(*old(state), plan.target, built) ==> {
            &&& start is None
            &&& final(state).current_animation == old(state).current_animation
            &&& final(state).is_moving == old(state).is_moving
        },
{
    if state.animation_graphs[plan.target].is_none() {
        match built {
            Some(graph) => {
                state.animation_graphs[plan.target] = Some(graph);
            },
            None => {},
        }
    }
    if state.current_animation != plan.target && state.animation_graphs[plan.target].is_some() {
        state.is_moving = plan.is_moving;
        state.current_animation = plan.target;
        Some(plan.target)
    } else {
        None
    }
}

/// A search through a tree of objects, parents before children and children
/// in their order, for the first object that has an animation player. The
/// search keeps the objects that are still to be looked at.
#[derive(Debug)]
pub struct PlayerSearch {
    /// The objects still to be looked at; the next one is the last.
    stack: Vec<EntityId>,
}

/// What comes after a look at one object.
#[derive(Clone, Copy, Debug, PartialEq, Eq, Structural)]
pub enum SearchStep {
    /// The object has the player: the search is over.
    Found(EntityId),
    /// This object is to be looked at next.
    Visit(EntityId),
    /// No object is left: there is no player.
    Exhausted,
}

impl PlayerSearch {
    /// The objects still to be looked at, the next one first.
    pub closed spec fn pending(&self) -> Seq<EntityId> {
        Seq::new(self.stack@.len(), |i: int| self.stack@[self.stack@.len() - 1 - i])
    }

    /// A search that has nothing left to look at.
    pub fn new() -> (search: Self)
        ensures
            search.pending() == Seq::<EntityId>::empty(),
    {
        let search = PlayerSearch { stack: Vec::new() };
        assert(search.pending() =~= Seq::<EntityId>::empty());
        search
    }

    /// Puts `children` in front of what is still to be looked at.
    fn descend(&mut self, children: &Vec<EntityId>)
        ensures
            final(self).pending() == children@ + old(self).pending(),
    {
        let mut left: usize = children.len();
        while left > 0
            invariant
                left <= children.len(),
                self.stack@ == old(self).stack@ + Seq::new(
                    (children.len() - left) as nat,
                    |i: int| children@[children.len() - 1 - i],
                ),
            decreases left,
        {
            left -= 1;
            self.stack.push(children[left]);
            assert(self.stack@ =~= old(self).stack@ + Seq::new(
                (children.len() - left) as nat,
                |i: int| children@[children.len() - 1 - i],
            ));
        }
        assert(self.pending() =~= children@ + old(self).pending());
    }

    /// Takes the next object to look at.
    fn advance(&mut self) -> (next: Option<EntityId>)
        ensures
            old(self).pending().len() == 0 ==> next is None && final(self).pending() == old(self).pending(),
            old(self).pending().len() > 0 ==> next == Some(old(self).pending()[0]) && final(self).pending() == old(self).pending().skip(1),
    {
        let next = self.stack.pop();
        assert(next is Some ==> self.pending() =~= old(self).pending().skip(1));
        next
    }
}

/// The objects to be looked at after a look at one that has no player:
/// its children, then what was left before.
pub open spec fn search_rest(search: PlayerSearch, children: Seq<EntityId>) -> Seq<EntityId> {
    children + search.pending()
}

/// One step of the search for an animation player. The caller has looked at
/// `entity`: `has_player` says whether it has the player, `children` are its
/// children in order. The search starts at the root with a new
/// `PlayerSearch` and goes on with each object that `Visit` names.
pub fn find_animation_player(
    search: &mut PlayerSearch,
    entity: EntityId,
    has_player: bool,
    children: &Vec<EntityId>,
) -> (step: SearchStep)
    ensures
        has_player ==> step == SearchStep::Found(entity) && final(search).pending() == old(search).pending(),
        !has_player && search_rest(*old(search), children@).len() == 0 ==> step
            == SearchStep::Exhausted && final(search).pending().len() == 0,
        !has_player && search_rest(*old(search), children@).len() > 0 ==> step
            == SearchStep::Visit(search_rest(*old(search), children@)[0]) && final(search).pending() == search_rest(*old(search), children@).skip(1),
{
    if has_player {
        return SearchStep::Found(entity);
    }
    search.descend(children);
    match search.advance() {
        Some(next) => SearchStep::Visit(next),
        None => SearchStep::Exhausted,
    }
}

} // verus!
