pub mod mariadb;
pub mod mysql;
