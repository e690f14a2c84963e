[package]
name = "aki-image-view-gtk"
version = "0.2.9"
edition = "2021"
publish = false

[dependencies]
anyhow = "1"
flood-tide = "0.2"
gtk = "0.16"
gdk = "0.16"
gdk-pixbuf = "0.16"
gio = "0.16"
glib = "0.16"
cairo-rs = "0.16"
