[package]
name = "dynamic_pricing_protocol"
version = "0.1.0"
edition = "2021"
publish = false

[dependencies]
pyth-sdk-solana = "=0.10.6"
# Not used directly: pins the solana-program line against which
# pyth-sdk-solana 0.10 still builds (newer lines drop the borsh 0.10
# impls on Pubkey that its derives need).
solana-program = "=1.18.26"
bytemuck = "=1.25.2"
