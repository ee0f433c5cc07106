[package]
name = "core_sol_bond_stake_sc"
version = "0.1.0"
edition = "2021"
publish = false

[dependencies]
mpl-bubblegum = "*"
solana-program = "*"
