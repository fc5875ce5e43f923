pub mod welcomescreens;
