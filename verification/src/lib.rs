//! The core of a chapter downloader for a site that hides the manifest of
//! each chapter in a packed script.
//!
//! A packed script is a script whose words were replaced by short keys, the
//! numerals of their positions in a dictionary. [`keys`] writes the keys,
//! [`dictionary`] rebuilds the dictionary, [`unpack`] puts the words back and
//! finds the manifest in the result, [`document`] and [`manifest`] read it.
//! [`catalog`] reads the listing of a title and [`chapter`] the page of a
//! chapter, [`page`] and [`patterns`] being their eyes.
//!
//! The retrieval itself is somebody else's work: the library decides and
//! its caller acts. [`fetch`] names what is asked for and where it goes,
//! [`transfer`] and [`assembly`] say what follows from each answer, [`pace`]
//! draws the rests, [`order`] and [`names`] arrange and name what lands on
//! disk, [`selection`] reads the choice of chapters, [`config`] holds the
//! hosts and headers, [`error`] what can go wrong, and [`text`] serves them
//! all.

pub mod assembly;
pub mod catalog;
pub mod chapter;
pub mod config;
pub mod dictionary;
pub mod document;
pub mod error;
pub mod fetch;
pub mod keys;
pub mod manifest;
pub mod names;
pub mod order;
pub mod pace;
pub mod page;
pub mod patterns;
pub mod selection;
pub mod text;
pub mod transfer;
pub mod unpack;
