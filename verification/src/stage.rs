//! Scenes and the stage that keeps them under their names.

use vstd::prelude::*;

use crate::context::Context;
use crate::event::Event;
use crate::names::{distinct, find_name, has_name, lemma_place_of, names_of, place_of};
use crate::signal::Loop;

verus! {

/// A mode of the application: a menu, the game, the screen after it.
///
/// The engine calls `on_load` once each time the scene becomes current,
/// then `on_event` for each input event and `on_tick` once in every frame,
/// and `on_unload` once when the scene is left or the run ends. A callback
/// that is not written does nothing and answers `Continue`.
pub trait Scene<P> {
    /// The scene as it is before its first load.
    fn new() -> Self where Self: Sized;

    /// Prepares the scene for a run on it.
    fn on_load(&mut self, _ctx: &mut Context<P>) -> Loop {
        Loop::Continue
    }

    /// Releases what the run on the scene held.
    fn on_unload(&mut self, _ctx: &mut Context<P>) -> Loop {
        Loop::Continue
    }

    /// Takes in one input event.
    fn on_event(&mut self, _event: Event, _ctx: &mut Context<P>) -> Loop {
        Loop::Continue
    }

    /// Advances the scene by one frame and draws it.
    fn on_tick(&mut self, _ctx: &mut Context<P>) -> Loop {
        Loop::Continue
    }
}

/// The scene that was asked for is not on the stage.
#[derive(Clone, Debug, PartialEq, Eq)]
pub struct MissingScene {
    /// The name that was asked for.
    pub name: String,
}

/// The scenes of an application, each under its own name.
#[verifier::reject_recursive_types(P)]
pub struct Stage<'a, P> {
    scenarios: Vec<(String, Part<'a, P>)>,
}

/// A scene as the stage keeps it.
#[verifier::reject_recursive_types(P)]
pub struct Part<'a, P> {
    pub scene: Box<dyn Scene<P> + 'a>,
}

fn part<'a, P>(scene: Box<dyn Scene<P> + 'a>) -> (kept: Part<'a, P>)
    ensures
        kept == (Part { scene }),
{
    Part { scene }
}

impl<'a, P> Stage<'a, P> {
    /// The names on the stage, in the order in which they first came.
    pub closed spec fn names(&self) -> Seq<Seq<char>> {
        names_of(self.scenarios@)
    }

    /// The scene at the place, as the stage keeps it.
    pub closed spec fn part_at(&self, place: int) -> Part<'a, P> {
        self.scenarios@[place].1
    }

    /// No name is on the stage twice.
    pub open spec fn wf(&self) -> bool {
        distinct(self.names())
    }

    /// A stage without scenes.
    pub fn new() -> (stage: Self)
        ensures
            stage.wf(),
            stage.names() == Seq::<Seq<char>>::empty(),
    {
        let stage = Stage { scenarios: Vec::new() };
        assert(stage.names() =~= Seq::<Seq<char>>::empty());
        stage
    }

    /// A scene of this name is on the stage.
    pub open spec fn has(&self, name: Seq<char>) -> bool {
        has_name(self.names(), name)
    }

    /// The names once a scene has come under `name`: a new name comes
    /// last, a name that is there keeps its place.
    pub open spec fn names_with(&self, name: Seq<char>) -> Seq<Seq<char>> {
        if self.has(name) {
            self.names()
        } else {
            self.names().push(name)
        }
    }

    /// How many scenes are on the stage.
    pub fn len(&self) -> (count: usize)
        ensures
            count == self.names().len(),
    {
        self.scenarios.len()
    }

    /// Puts the scene on the stage under the name. A scene that had the
    /// name before is dropped: the last registration wins.
    pub fn register(&mut self, name: String, scene: Box<dyn Scene<P> + 'a>)
        requires
            old(self).wf(),
        ensures
            final(self).wf(),
            final(self).names() == old(self).names_with(name@),
            forall|i: int|
                0 <= i < old(self).names().len() && old(self).names()[i] != name@
                    ==> final(self).part_at(i) == old(self).part_at(i),
    {
        self.register_part(name, part(scene));
    }

    /// Puts the part on the stage under the name. A name that is there
    /// keeps its place and holds the part from now on, in place of the
    /// scene it held; a new name comes last and holds it. Every other name
    /// holds what it held.
    pub fn register_part(&mut self, name: String, kept: Part<'a, P>)
        requires
            old(self).wf(),
        ensures
            final(self).wf(),
            final(self).names() == old(self).names_with(name@),
            final(self).has(name@),
            final(self).part_at(place_of(final(self).names(), name@)) == kept,
            forall|i: int|
                0 <= i < old(self).names().len() && old(self).names()[i] != name@
                    ==> final(self).part_at(i) == old(self).part_at(i),
    {
        let ghost names = self.names();
        let entry = (name, kept);
        match find_name(&self.scenarios, entry.0.as_str()) {
            Some(i) => {
                self.scenarios.set(i, entry);
                assert(self.names() =~= names);
                proof {
                    lemma_place_of(names, i as int);
                }
            },
            None => {
                self.scenarios.push(entry);
                assert(self.names() =~= names.push(entry.0@));
                assert forall|i: int, j: int| 0 <= i < j < self.names().len() implies self.names()[i]
                    != self.names()[j] by {
                    if j == names.len() {
                        assert(names[i] != entry.0@);
                    }
                }
                proof {
                    lemma_place_of(self.names(), names.len() as int);
                }
            },
        }
    }

    /// Makes a scene of type `S` and puts it on the stage under the name.
    pub fn add_scene<S: Scene<P> + 'a>(&mut self, name: String)
        requires
            old(self).wf(),
        ensures
            final(self).wf(),
            final(self).names() == old(self).names_with(name@),
            forall|i: int|
                0 <= i < old(self).names().len() && old(self).names()[i] != name@
                    ==> final(self).part_at(i) == old(self).part_at(i),
    {
        let scene: Box<dyn Scene<P> + 'a> = Box::new(S::new());
        self.register(name, scene);
    }

    /// The place of the scene of this name, or `MissingScene` where no
    /// scene has the name.
    pub fn position(&self, name: &str) -> (place: Result<usize, MissingScene>)
        requires
            self.wf(),
        ensures
            place is Ok <==> self.has(name@),
            place is Ok ==> place->Ok_0 == place_of(self.names(), name@) && place->Ok_0
                < self.names().len(),
            place is Err ==> place->Err_0.name@ == name@,
    {
        match find_name(&self.scenarios, name) {
            Some(i) => {
                proof {
                    lemma_place_of(self.names(), i as int);
                }
                Ok(i)
            },
            None => Err(MissingScene { name: name.to_owned() }),
        }
    }

    /// The scene at the place, to call or to change.
    pub fn scene_mut(&mut self, index: usize) -> (scene: &mut Box<dyn Scene<P> + 'a>)
        requires
            index < old(self).names().len(),
        ensures
            *scene == old(self).part_at(index as int).scene,
            final(self).part_at(index as int).scene == *final(scene),
            forall|i: int|
                0 <= i < old(self).names().len() && i != index
                    ==> final(self).part_at(i) == old(self).part_at(i),
            final(self).names() == old(self).names(),
    {
        &mut self.scenarios[index].1.scene
    }

    /// The scene of this name, to call or to change, or `MissingScene`
    /// where no scene has the name.
    pub fn get_mut(&mut self, name: &str) -> (found: Result<
        &mut Box<dyn Scene<P> + 'a>,
        MissingScene,
    >)
        requires
            old(self).wf(),
        ensures
            found is Ok <==> old(self).has(name@),
            found is Err ==> found->Err_0.name@ == name@,
            final(self).names() == old(self).names(),
            found is Ok ==> *found->Ok_0 == old(self).part_at(place_of(old(self).names(), name@)).scene,
            found is Ok ==> final(self).part_at(place_of(old(self).names(), name@)).scene
                == *final(found->Ok_0),
            forall|i: int|
                0 <= i < old(self).names().len() && !(found is Ok && i == place_of(
                    old(self).names(),
                    name@,
                )) ==> final(self).part_at(i) == old(self).part_at(i),
    {
        match self.position(name) {
            Ok(i) => Ok(self.scene_mut(i)),
            Err(missing) => Err(missing),
        }
    }
}

} // verus!
