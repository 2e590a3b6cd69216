pub mod events;
pub mod graphics;
pub mod i18n;
