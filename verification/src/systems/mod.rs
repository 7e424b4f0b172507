//! What the prefabs and the scenes share: collision, scrolling, the scene
//! stack and the stored high score.
pub mod physics;
pub mod scenemanagement;
pub mod scrolling;
pub mod storage;
