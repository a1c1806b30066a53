pub mod back_of_house;
pub mod division;
pub mod gates;
pub mod geometry;
pub mod messenger;
pub mod selection;
pub mod strings;
pub mod summary;
