//! The rules of a host that embeds a widget tree in a window of its own.
//!
//! The host owns the window and its graphics device. It draws a scene, and over it a user
//! interface that covers the middle of the window. This library decides everything that such
//! a host has to decide and leaves the doing to it: where the user interface lies
//! ([`geometry`], [`ui`]), which pointer events reach it ([`pointer`], [`routing`], [`ui`]),
//! what becomes of the window's other events ([`input`]), how the host answers what the
//! widget tree asks of it ([`signals`]), how the scene moves ([`scene`]), what the shaders are
//! told ([`uniforms`]), and when the surface is set up and a frame is drawn ([`host`]).
//!
//! Two small parts stand by themselves: the property [`line_breaking`] and the view
//! [`class`].
pub mod class;
pub mod geometry;
pub mod host;
pub mod input;
pub mod line_breaking;
pub mod outside;
pub mod pointer;
pub mod routing;
pub mod scene;
pub mod signals;
pub mod ui;
pub mod uniforms;
