//! The stack of scenes. Only the scene on top is advanced and drawn; a
//! title screen on top is also what loading is done for.
use vstd::prelude::*;
use crate::geometry::MAX_EXTENT;
use crate::input::FrameInput;
use crate::render::DrawCommand;
use crate::scenes::game::{GameAssets, GameState};
use crate::scenes::title::{TitleAssets, TitleScene};
use crate::scenes::{AnyScene, Scene, Transition};

verus! {

pub struct SceneManager<S: Scene> {
    /// The scenes, the active one last.
    pub scenes: Vec<S>,
}

/// The stack after a frame that took its top scene to `after` and gave
/// `transition`: the scene is put back in its place, or leaves the stack.
pub open spec fn settled<S>(scenes: Seq<S>, after: S, transition: Transition) -> Seq<S> {
    match transition {
        Transition::Stay => scenes.drop_last().push(after),
        Transition::Pop => scenes.drop_last(),
    }
}

impl<S: Scene> SceneManager<S> {
    /// Every scene of the stack is well formed.
    pub open spec fn wf(&self) -> bool {
        forall|i: int| 0 <= i < self.scenes@.len() ==> (#[trigger] self.scenes@[i]).wf()
    }

    /// Number of scenes on the stack.
    pub fn len(&self) -> (n: usize)
        ensures
            n == self.scenes@.len(),
    {
        self.scenes.len()
    }

    /// Whether the stack has run empty, which ends the program.
    pub fn is_empty(&self) -> (empty: bool)
        ensures
            empty == (self.scenes@.len() == 0),
    {
        self.scenes.len() == 0
    }

    /// Advances the scene on top by one frame and applies the transition
    /// it asks for. An empty stack stays empty.
    pub fn update(&mut self, input: &FrameInput)
        requires
            old(self).wf(),
            input.wf(),
        ensures
            final(self).wf(),
            old(self).scenes@.len() == 0 ==> final(self).scenes@ == old(self).scenes@,
            old(self).scenes@.len() > 0 ==> exists|after: S, transition: Transition|
                #[trigger] old(self).scenes@.last().updates_to(*input, &after, transition)
                    && final(self).scenes@ == settled(old(self).scenes@, after, transition),
    {
        match self.scenes.pop() {
            Some(mut active_scene) => {
                let ghost before = active_scene;
                assert(before == old(self).scenes@.last());
                assert(before.wf());
                assert forall|i: int| 0 <= i < self.scenes@.len() implies (
                #[trigger] self.scenes@[i]).wf() by {
                    assert(self.scenes@[i] == old(self).scenes@[i]);
                }
                let transition = active_scene.update(input);
                match transition {
                    Transition::Stay => {
                        self.scenes.push(active_scene);
                    },
                    Transition::Pop => {},
                }
                assert(old(self).scenes@.last().updates_to(*input, &active_scene, transition));
                assert(self.scenes@ == settled(old(self).scenes@, active_scene, transition));
            },
            None => {},
        }
    }
}

impl<S: Scene> SceneManager<S> {
    /// Says what is to be drawn: what the scene on top asks for, or
    /// nothing at all where the stack is empty, which is when the
    /// program is to end.
    pub fn draw(&mut self, screen_width: i64, screen_height: i64) -> (commands: Option<
        Vec<DrawCommand>,
    >)
        requires
            old(self).wf(),
            0 <= screen_width <= MAX_EXTENT,
            0 <= screen_height <= MAX_EXTENT,
        ensures
            final(self).wf(),
            commands is None <==> old(self).scenes@.len() == 0,
            commands is None ==> final(self).scenes@ == old(self).scenes@,
            commands is Some ==> exists|after: S|
                #[trigger] old(self).scenes@.last().draws_to(
                    screen_width,
                    screen_height,
                    &after,
                    commands.unwrap()@,
                ) && final(self).scenes@ == old(self).scenes@.drop_last().push(after),
    {
        match self.scenes.pop() {
            Some(mut active_scene) => {
                assert(active_scene == old(self).scenes@.last());
                assert(active_scene.wf());
                assert forall|i: int| 0 <= i < self.scenes@.len() implies (
                #[trigger] self.scenes@[i]).wf() by {
                    assert(self.scenes@[i] == old(self).scenes@[i]);
                }
                let ghost below = self.scenes@;
                assert(below =~= old(self).scenes@.drop_last());
                let list = active_scene.draw(screen_width, screen_height);
                let ghost after = active_scene;
                self.scenes.push(active_scene);
                assert(self.scenes@ == old(self).scenes@.drop_last().push(after));
                let commands = Some(list);
                assert(old(self).scenes@.last().draws_to(
                    screen_width,
                    screen_height,
                    &after,
                    commands.unwrap()@,
                ));
                commands
            },
            None => None,
        }
    }
}

/// What the scene on top of the stack waits for.
#[derive(Clone, Copy, Debug, PartialEq, Eq, Structural)]
pub enum LoadRequest {
    /// Nothing: the frame can go on.
    Nothing,
    /// The textures of the title screen.
    TitleAssets,
    /// The textures of the game, the size of the screen and the stored
    /// high score.
    Game,
}

/// What has been loaded for the scene on top of the stack.
#[derive(Clone, Copy, Debug)]
pub enum Loaded {
    Nothing,
    /// Sizes of the title screen's textures.
    TitleAssets(TitleAssets),
    /// Sizes of the game's textures, the size of the screen, and the
    /// stored high score or none where it could not be read.
    Game { assets: GameAssets, screen_width: i64, screen_height: i64, stored: Option<i32> },
}

impl Loaded {
    /// The sizes that have been loaded are well formed.
    pub open spec fn wf(self) -> bool {
        match self {
            Loaded::Nothing => true,
            Loaded::TitleAssets(assets) => assets.wf(),
            Loaded::Game { assets, .. } => assets.wf(),
        }
    }

    /// Tests [`Loaded::wf`].
    pub fn is_valid(&self) -> (ok: bool)
        ensures
            ok == self.wf(),
    {
        match self {
            Loaded::Nothing => true,
            Loaded::TitleAssets(assets) => assets.is_valid(),
            Loaded::Game { assets, .. } => assets.is_valid(),
        }
    }
}

/// What a stack of scenes waits for: what its top scene waits for if it
/// is a title screen, its textures before the game.
pub open spec fn pending_load(scenes: Seq<AnyScene>) -> LoadRequest {
    if scenes.len() > 0 && scenes.last() is Title {
        let title = scenes.last()->Title_0;
        if title.loading {
            LoadRequest::TitleAssets
        } else if title.loading_game {
            LoadRequest::Game
        } else {
            LoadRequest::Nothing
        }
    } else {
        LoadRequest::Nothing
    }
}

/// Whether handing `loaded` to a stack with the title screen `title` on
/// top may leave the stack `after`: textures go to a title screen that
/// waits for them, and a loaded game takes the place of a title screen
/// that waits for it. Anything else leaves the stack as it is.
pub open spec fn hands_over(
    scenes: Seq<AnyScene>,
    title: TitleScene,
    loaded: Loaded,
    after: Seq<AnyScene>,
) -> bool {
    match loaded {
        Loaded::Nothing => after == scenes,
        Loaded::TitleAssets(assets) => after == scenes.drop_last().push(
            AnyScene::Title(title.with_assets(assets)),
        ),
        Loaded::Game { assets, screen_width, screen_height, stored } => if title.loading_game {
            &&& after.len() == scenes.len()
            &&& after.drop_last() == scenes.drop_last()
            &&& after.last() matches AnyScene::Game(game)
            &&& game@ == GameState::initial(
                assets,
                screen_width,
                screen_height,
                match stored {
                    Some(highscore) => highscore,
                    None => 0,
                },
            )
        } else {
            after == scenes
        },
    }
}

impl SceneManager<AnyScene> {
    /// A stack that holds a title screen.
    pub fn new() -> (manager: SceneManager<AnyScene>)
        ensures
            manager.wf(),
            manager.scenes@ == seq![AnyScene::Title(TitleScene::fresh())],
    {
        let mut scenes = Vec::new();
        scenes.push(AnyScene::Title(TitleScene::new()));
        assert(scenes@ =~= seq![AnyScene::Title(TitleScene::fresh())]);
        SceneManager { scenes }
    }

    /// Says what has to be loaded before the frame can go on.
    pub fn load_request(&self) -> (request: LoadRequest)
        ensures
            request == pending_load(self.scenes@),
    {
        let n = self.scenes.len();
        if n == 0 {
            return LoadRequest::Nothing;
        }
        match &self.scenes[n - 1] {
            AnyScene::Title(title) => {
                if title.is_loading() {
                    LoadRequest::TitleAssets
                } else if title.is_loading_game() {
                    LoadRequest::Game
                } else {
                    LoadRequest::Nothing
                }
            },
            AnyScene::Game(_) => LoadRequest::Nothing,
        }
    }

    /// Hands what has been loaded to a title screen on top of the stack.
    /// This is the one place where a scene is replaced by another: the
    /// title screen by the game it waited for.
    pub fn pre_update(&mut self, loaded: Loaded)
        requires
            old(self).wf(),
            loaded.wf(),
        ensures
            final(self).wf(),
            old(self).scenes@.len() > 0 && old(self).scenes@.last() is Title ==> hands_over(
                old(self).scenes@,
                old(self).scenes@.last()->Title_0,
                loaded,
                final(self).scenes@,
            ),
            !(old(self).scenes@.len() > 0 && old(self).scenes@.last() is Title) ==> final(self).scenes@
                == old(self).scenes@,
    {
        match self.scenes.pop() {
            Some(AnyScene::Title(mut title)) => {
                assert(old(self).scenes@.last() == AnyScene::Title(title));
                assert(old(self).scenes@.last().wf());
                assert forall|i: int| 0 <= i < self.scenes@.len() implies (
                #[trigger] self.scenes@[i]).wf() by {
                    assert(self.scenes@[i] == old(self).scenes@[i]);
                }
                match loaded {
                    Loaded::Nothing => {
                        self.scenes.push(AnyScene::Title(title));
                        assert(self.scenes@ == old(self).scenes@);
                    },
                    Loaded::TitleAssets(assets) => {
                        title.load_assets(&assets);
                        self.scenes.push(AnyScene::Title(title));
                    },
                    Loaded::Game { assets, screen_width, screen_height, stored } => {
                        match title.load_game_scene(&assets, screen_width, screen_height, stored) {
                            Some(game_scene) => {
                                self.scenes.push(AnyScene::Game(game_scene));
                                assert(self.scenes@.drop_last() == old(self).scenes@.drop_last());
                            },
                            None => {
                                self.scenes.push(AnyScene::Title(title));
                                assert(self.scenes@ == old(self).scenes@);
                            },
                        }
                    },
                }
            },
            Some(other) => {
                self.scenes.push(other);
                assert(self.scenes@ == old(self).scenes@);
            },
            None => {},
        }
    }
}

} // verus!
