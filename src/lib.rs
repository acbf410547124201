//! Clinic management core: patients, medical records, diagnoses, exams,
//! staff, schedules, appointments and the authentication flow.
//!
//! Every operation here is a decision over values that the caller has read
//! from the relational store; the caller performs the queries and hands the
//! rows, the generated ids and the store's failures in as plain values.

pub mod citas;
pub mod errores;
pub mod examenes;
pub mod expedientes;
pub mod fecha;
pub mod pacientes;
pub mod personal;
pub mod credenciales;
pub mod tokens;
pub mod auth;
