pub mod stroke;
pub mod layout;
pub mod layout_laws;
pub mod mapper;
pub mod fix;
pub mod keyboard;
pub mod translation_laws;
