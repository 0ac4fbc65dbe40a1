use vstd::prelude::*;

verus! {

/// Token signing settings of the combined service.
#[derive(Debug, Clone)]
pub struct Jwt {
    pub secret: String,
}

/// Database settings of the combined service.
#[derive(Debug, Clone)]
pub struct Db {
    pub url: String,
}

/// Listening settings of the combined service.
#[derive(Debug, Clone, Copy)]
pub struct Service {
    pub port: u16,
}

/// Message bus settings of the combined service.
#[derive(Debug, Clone)]
pub struct RabbitMq {
    pub url: String,
}

/// The settings of the combined service, read from the environment.
#[derive(Debug, Clone)]
pub struct Settings {
    pub jwt: Jwt,
    pub db: Db,
    pub service: Service,
    pub rabbitmq: RabbitMq,
}

} // verus!
